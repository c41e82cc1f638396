//! Lesson quizzes as the client sees them.

use vstd::prelude::*;

verus! {

#[derive(Clone, Copy, Debug, PartialEq, Eq, Structural)]
pub enum QuestionType {
    MultipleChoice,
    TrueFalse,
}

#[derive(Clone, Debug)]
pub struct QuizQuestionOnClient {
    pub id: String,
    pub question_text: String,
    pub question_type: QuestionType,
    pub options: Option<Vec<String>>,
    pub sort_order: i32,
}

#[derive(Clone, Debug)]
pub struct QuizAnswer {
    pub question_id: String,
    pub answer: String,
}

#[derive(Clone, Debug)]
pub struct QuizSubmission {
    pub quiz_id: String,
    pub answers: Vec<QuizAnswer>,
}

} // verus!
