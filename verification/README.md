# merzah

The core rules of the Merzah community platform (mosques, events, prayer
times, learning tracks and gamification), written in Verus and proved against
their contracts.

- `src/` is the verified library:
  - `calendar`, `datetime`, `recurrence`: Gregorian day numbers, fixed-offset
    moments, and when a recurring event happens next (with laws on where each
    pattern lands, Friday-to-Saturday and Sunday-to-Monday steps and the
    September quarterly jump included, and that every pattern moves forward).
  - `prayer`: the next jamat prayer, its countdown, and the reminder card.
  - `streak`, `achievement`: daily learning streaks and earned achievements.
  - `education`: roles, course ownership, enrollment, publishing, lesson
    navigation, completion counts and course search.
  - `session`, `oauth`, `password`, `user`: session tokens and cookies, OAuth
    state and provider profiles, password hashing, role elevation.
  - `overpass`: the retry rule and element reading for loading a region's
    mosques from OpenStreetMap.
  - `models`: the plain data exchanged with clients and catalogue files.
- `tests/` runs the library on concrete values.
- `app/` is the catalogue import tool and the I/O around the library: JSON
  forms of the types, garde-checked forms, HTTP calls to OAuth providers and
  Overpass, and the floating-point progress figures.
