//! The mood catalog: a fixed set of ten moods, each with a themed record
//! (theme, music, stack, motto) and an ASCII-art block. Lookup by name is
//! case-insensitive and total over the catalog: an unlisted name is a
//! definite "not found", never a partial match.

use vstd::prelude::*;
use crate::text::chars_eq_str;
use crate::text::lemma_lower_seq_idempotent;
use crate::text::lower_chars;
use crate::text::lower_seq;
use vstd::string::StringExecFns;

verus! {

/// How many moods the catalog holds.
pub const MOOD_COUNT: usize = 10;

/// One of the ten moods of the catalog.
#[derive(Clone, Copy, PartialEq, Eq, Structural, Debug)]
pub enum Mood {
    Focus,
    Chaotic,
    Sadboi,
    Energetic,
    Chill,
    Creative,
    Productive,
    Nostalgic,
    Adventurous,
    Zen,
}

/// One mood's themed payload.
pub struct MoodRecord {
    pub theme: String,
    pub music: String,
    pub stack: String,
    pub motto: String,
}

/// The canonical lowercase name of a mood.
pub open spec fn spec_mood_name(m: Mood) -> Seq<char> {
    match m {
        Mood::Focus => "focus"@,
        Mood::Chaotic => "chaotic"@,
        Mood::Sadboi => "sadboi"@,
        Mood::Energetic => "energetic"@,
        Mood::Chill => "chill"@,
        Mood::Creative => "creative"@,
        Mood::Productive => "productive"@,
        Mood::Nostalgic => "nostalgic"@,
        Mood::Adventurous => "adventurous"@,
        Mood::Zen => "zen"@,
    }
}

/// The uppercase display name of a mood.
pub open spec fn spec_mood_upper_name(m: Mood) -> Seq<char> {
    match m {
        Mood::Focus => "FOCUS"@,
        Mood::Chaotic => "CHAOTIC"@,
        Mood::Sadboi => "SADBOI"@,
        Mood::Energetic => "ENERGETIC"@,
        Mood::Chill => "CHILL"@,
        Mood::Creative => "CREATIVE"@,
        Mood::Productive => "PRODUCTIVE"@,
        Mood::Nostalgic => "NOSTALGIC"@,
        Mood::Adventurous => "ADVENTUROUS"@,
        Mood::Zen => "ZEN"@,
    }
}

/// The mood at a position of the catalog's display order.
pub open spec fn spec_mood_at(i: int) -> Mood {
    if i == 0 {
        Mood::Focus
    } else if i == 1 {
        Mood::Chaotic
    } else if i == 2 {
        Mood::Sadboi
    } else if i == 3 {
        Mood::Energetic
    } else if i == 4 {
        Mood::Chill
    } else if i == 5 {
        Mood::Creative
    } else if i == 6 {
        Mood::Productive
    } else if i == 7 {
        Mood::Nostalgic
    } else if i == 8 {
        Mood::Adventurous
    } else {
        Mood::Zen
    }
}

/// The mood whose canonical name is the (already lowercase) sequence, if any.
pub open spec fn mood_of_lower(s: Seq<char>) -> Option<Mood> {
    if s == "focus"@ {
        Some(Mood::Focus)
    } else if s == "chaotic"@ {
        Some(Mood::Chaotic)
    } else if s == "sadboi"@ {
        Some(Mood::Sadboi)
    } else if s == "energetic"@ {
        Some(Mood::Energetic)
    } else if s == "chill"@ {
        Some(Mood::Chill)
    } else if s == "creative"@ {
        Some(Mood::Creative)
    } else if s == "productive"@ {
        Some(Mood::Productive)
    } else if s == "nostalgic"@ {
        Some(Mood::Nostalgic)
    } else if s == "adventurous"@ {
        Some(Mood::Adventurous)
    } else if s == "zen"@ {
        Some(Mood::Zen)
    } else {
        None
    }
}

/// Case-insensitive catalog lookup: the mood named by `s` in any casing.
pub open spec fn spec_parse_mood(s: Seq<char>) -> Option<Mood> {
    mood_of_lower(lower_seq(s))
}

/// Lookup is case-insensitive and pure: a name and its lowercased form
/// resolve to the same catalog entry, so any two casings of one name agree.
pub proof fn lemma_lookup_case_insensitive(s: Seq<char>)
    ensures
        spec_parse_mood(lower_seq(s)) == spec_parse_mood(s),
{
    lemma_lower_seq_idempotent(s);
}

/// The mood named by `mood`, in any letter casing.
pub fn parse_mood(mood: &str) -> (r: Option<Mood>)
    ensures
        r == spec_parse_mood(mood@),
{
    let low = lower_chars(mood);
    if chars_eq_str(&low, "focus") {
        Some(Mood::Focus)
    } else if chars_eq_str(&low, "chaotic") {
        Some(Mood::Chaotic)
    } else if chars_eq_str(&low, "sadboi") {
        Some(Mood::Sadboi)
    } else if chars_eq_str(&low, "energetic") {
        Some(Mood::Energetic)
    } else if chars_eq_str(&low, "chill") {
        Some(Mood::Chill)
    } else if chars_eq_str(&low, "creative") {
        Some(Mood::Creative)
    } else if chars_eq_str(&low, "productive") {
        Some(Mood::Productive)
    } else if chars_eq_str(&low, "nostalgic") {
        Some(Mood::Nostalgic)
    } else if chars_eq_str(&low, "adventurous") {
        Some(Mood::Adventurous)
    } else if chars_eq_str(&low, "zen") {
        Some(Mood::Zen)
    } else {
        None
    }
}

/// The theme text of a mood's record.
pub open spec fn spec_theme(m: Mood) -> Seq<char> {
    match m {
        Mood::Focus => "Deep Ocean Blue"@,
        Mood::Chaotic => "Neon Cyberpunk"@,
        Mood::Sadboi => "Melancholic Purple"@,
        Mood::Energetic => "Sunset Orange"@,
        Mood::Chill => "Forest Green"@,
        Mood::Creative => "Rainbow Spectrum"@,
        Mood::Productive => "Corporate Blue"@,
        Mood::Nostalgic => "Retro Sepia"@,
        Mood::Adventurous => "Aurora Borealis"@,
        Mood::Zen => "Minimalist White"@,
    }
}

/// The music text of a mood's record.
pub open spec fn spec_music(m: Mood) -> Seq<char> {
    match m {
        Mood::Focus => "Lo-fi beats, classical piano, ambient nature sounds"@,
        Mood::Chaotic => "EDM, industrial rock, experimental electronic"@,
        Mood::Sadboi => "Indie folk, post-rock, sad piano ballads"@,
        Mood::Energetic => "Rock, punk, high-energy electronic, workout beats"@,
        Mood::Chill => "Jazz, acoustic, nature sounds, smooth R&B"@,
        Mood::Creative => "Alternative, indie, experimental, world music"@,
        Mood::Productive => "Instrumental hip-hop, productivity playlists, white noise"@,
        Mood::Nostalgic => "80s synthwave, classic rock, vinyl crackle"@,
        Mood::Adventurous => "Epic orchestral, adventure soundtracks, tribal drums"@,
        Mood::Zen => "Meditation, zen gardens, silence, minimal ambient"@,
    }
}

/// The stack text of a mood's record.
pub open spec fn spec_stack(m: Mood) -> Seq<char> {
    match m {
        Mood::Focus => "Rust, TypeScript, PostgreSQL, Docker"@,
        Mood::Chaotic => "Python, JavaScript, MongoDB, Redis, WebSockets"@,
        Mood::Sadboi => "Go, React, SQLite, simple APIs"@,
        Mood::Energetic => "Node.js, React, Firebase, WebRTC"@,
        Mood::Chill => "Python, Flask, SQLite, simple HTML/CSS"@,
        Mood::Creative => "JavaScript, Three.js, WebGL, creative coding"@,
        Mood::Productive => "Java, Spring Boot, MySQL, Kubernetes"@,
        Mood::Nostalgic => "C++, OpenGL, legacy systems, retro computing"@,
        Mood::Adventurous => "Rust, WebAssembly, blockchain, edge computing"@,
        Mood::Zen => "Haskell, functional programming, pure functions"@,
    }
}

/// The motto text of a mood's record.
pub open spec fn spec_motto(m: Mood) -> Seq<char> {
    match m {
        Mood::Focus => "Flow state is the goal state"@,
        Mood::Chaotic => "Embrace the chaos, create order"@,
        Mood::Sadboi => "Code through the feels"@,
        Mood::Energetic => "Code like you're running out of time"@,
        Mood::Chill => "Take it easy, build it right"@,
        Mood::Creative => "Art and code are one"@,
        Mood::Productive => "Efficiency is the ultimate form of beauty"@,
        Mood::Nostalgic => "The future is built on the past"@,
        Mood::Adventurous => "Explore the unknown, build the impossible"@,
        Mood::Zen => "Less is more, simplicity is complexity resolved"@,
    }
}

/// `rec` carries exactly the catalog texts of mood `m`.
pub open spec fn record_matches(rec: MoodRecord, m: Mood) -> bool {
    &&& rec.theme@ == spec_theme(m)
    &&& rec.music@ == spec_music(m)
    &&& rec.stack@ == spec_stack(m)
    &&& rec.motto@ == spec_motto(m)
}

/// The catalog record of a mood.
pub fn mood_record(m: Mood) -> (r: MoodRecord)
    ensures
        record_matches(r, m),
{
    match m {
        Mood::Focus => MoodRecord {
            theme: String::from_str("Deep Ocean Blue"),
            music: String::from_str("Lo-fi beats, classical piano, ambient nature sounds"),
            stack: String::from_str("Rust, TypeScript, PostgreSQL, Docker"),
            motto: String::from_str("Flow state is the goal state"),
        },
        Mood::Chaotic => MoodRecord {
            theme: String::from_str("Neon Cyberpunk"),
            music: String::from_str("EDM, industrial rock, experimental electronic"),
            stack: String::from_str("Python, JavaScript, MongoDB, Redis, WebSockets"),
            motto: String::from_str("Embrace the chaos, create order"),
        },
        Mood::Sadboi => MoodRecord {
            theme: String::from_str("Melancholic Purple"),
            music: String::from_str("Indie folk, post-rock, sad piano ballads"),
            stack: String::from_str("Go, React, SQLite, simple APIs"),
            motto: String::from_str("Code through the feels"),
        },
        Mood::Energetic => MoodRecord {
            theme: String::from_str("Sunset Orange"),
            music: String::from_str("Rock, punk, high-energy electronic, workout beats"),
            stack: String::from_str("Node.js, React, Firebase, WebRTC"),
            motto: String::from_str("Code like you're running out of time"),
        },
        Mood::Chill => MoodRecord {
            theme: String::from_str("Forest Green"),
            music: String::from_str("Jazz, acoustic, nature sounds, smooth R&B"),
            stack: String::from_str("Python, Flask, SQLite, simple HTML/CSS"),
            motto: String::from_str("Take it easy, build it right"),
        },
        Mood::Creative => MoodRecord {
            theme: String::from_str("Rainbow Spectrum"),
            music: String::from_str("Alternative, indie, experimental, world music"),
            stack: String::from_str("JavaScript, Three.js, WebGL, creative coding"),
            motto: String::from_str("Art and code are one"),
        },
        Mood::Productive => MoodRecord {
            theme: String::from_str("Corporate Blue"),
            music: String::from_str("Instrumental hip-hop, productivity playlists, white noise"),
            stack: String::from_str("Java, Spring Boot, MySQL, Kubernetes"),
            motto: String::from_str("Efficiency is the ultimate form of beauty"),
        },
        Mood::Nostalgic => MoodRecord {
            theme: String::from_str("Retro Sepia"),
            music: String::from_str("80s synthwave, classic rock, vinyl crackle"),
            stack: String::from_str("C++, OpenGL, legacy systems, retro computing"),
            motto: String::from_str("The future is built on the past"),
        },
        Mood::Adventurous => MoodRecord {
            theme: String::from_str("Aurora Borealis"),
            music: String::from_str("Epic orchestral, adventure soundtracks, tribal drums"),
            stack: String::from_str("Rust, WebAssembly, blockchain, edge computing"),
            motto: String::from_str("Explore the unknown, build the impossible"),
        },
        Mood::Zen => MoodRecord {
            theme: String::from_str("Minimalist White"),
            music: String::from_str("Meditation, zen gardens, silence, minimal ambient"),
            stack: String::from_str("Haskell, functional programming, pure functions"),
            motto: String::from_str("Less is more, simplicity is complexity resolved"),
        },
    }
}

/// Looks a mood name up, in any casing: its record when the catalog knows
/// the name, nothing otherwise.
pub fn get_vibe_response(mood: &str) -> (r: Option<MoodRecord>)
    ensures
        match spec_parse_mood(mood@) {
            Some(m) => r matches Some(rec) && record_matches(rec, m),
            None => r is None,
        },
{
    match parse_mood(mood) {
        Some(m) => Some(mood_record(m)),
        None => None,
    }
}

/// The canonical name of a mood, as a string.
pub fn mood_name(m: Mood) -> (r: String)
    ensures
        r@ == spec_mood_name(m),
{
    match m {
        Mood::Focus => String::from_str("focus"),
        Mood::Chaotic => String::from_str("chaotic"),
        Mood::Sadboi => String::from_str("sadboi"),
        Mood::Energetic => String::from_str("energetic"),
        Mood::Chill => String::from_str("chill"),
        Mood::Creative => String::from_str("creative"),
        Mood::Productive => String::from_str("productive"),
        Mood::Nostalgic => String::from_str("nostalgic"),
        Mood::Adventurous => String::from_str("adventurous"),
        Mood::Zen => String::from_str("zen"),
    }
}

/// The uppercase display name of a mood, as a string.
pub fn mood_upper_name(m: Mood) -> (r: String)
    ensures
        r@ == spec_mood_upper_name(m),
{
    match m {
        Mood::Focus => String::from_str("FOCUS"),
        Mood::Chaotic => String::from_str("CHAOTIC"),
        Mood::Sadboi => String::from_str("SADBOI"),
        Mood::Energetic => String::from_str("ENERGETIC"),
        Mood::Chill => String::from_str("CHILL"),
        Mood::Creative => String::from_str("CREATIVE"),
        Mood::Productive => String::from_str("PRODUCTIVE"),
        Mood::Nostalgic => String::from_str("NOSTALGIC"),
        Mood::Adventurous => String::from_str("ADVENTUROUS"),
        Mood::Zen => String::from_str("ZEN"),
    }
}

/// The mood at a position of the catalog's display order.
pub fn mood_at(i: usize) -> (m: Mood)
    requires
        i < MOOD_COUNT,
    ensures
        m == spec_mood_at(i as int),
{
    if i == 0 {
        Mood::Focus
    } else if i == 1 {
        Mood::Chaotic
    } else if i == 2 {
        Mood::Sadboi
    } else if i == 3 {
        Mood::Energetic
    } else if i == 4 {
        Mood::Chill
    } else if i == 5 {
        Mood::Creative
    } else if i == 6 {
        Mood::Productive
    } else if i == 7 {
        Mood::Nostalgic
    } else if i == 8 {
        Mood::Adventurous
    } else {
        Mood::Zen
    }
}

/// The ASCII-art block of a mood.
pub open spec fn spec_art(m: Mood) -> Seq<char> {
    match m {
        Mood::Focus => r#"
   (  )   (   )  )
    ) (   )  (  (
    ( )  (    ) )
    _____________
   <__Focus!!!__>
    -------------
        \
         \
            .--.
           |o_o |
           |:_/ |
          //   \ \
         (|     | )
        /'\_   _/`\
        \___)=(___/
"#@,
        Mood::Chaotic => r#"
      .-"""-.
     / .===. \
     \/ 6 6 \/
     ( \___/ )
 ___ooo__V__ooo___
|  CHAOS MODE!!!  |
 -----------------
     \   ^__^
      \  (oo)\_______
         (__)\       )\/\
             ||----w |
             ||     ||
"#@,
        Mood::Sadboi => r#"
      .-''''-.
     /        \
    |  .--.  |
    | (    ) |
     \ '--' /
      '-..-'
   Sadboi Vibes
   ~~~~~~~~~~~
    (︶︹︺)
"#@,
        Mood::Energetic => r#"
    🔥 ENERGETIC 🔥
     ⚡ ⚡ ⚡ ⚡ ⚡
    /           \
   |  ROCK ON!  |
    \           /
     ⚡ ⚡ ⚡ ⚡ ⚡
    🔥 FIRE UP! 🔥
"#@,
        Mood::Chill => r#"
    🌿 CHILL 🌿
     ~~~~~~~~~
    /         \
   |  Relax   |
   |  & Code  |
    \         /
     ~~~~~~~~~
    🌿 VIBES 🌿
"#@,
        Mood::Creative => r#"
    🎨 CREATIVE 🎨
     🌈 🌈 🌈 🌈
    /           \
   |  Create   |
   |  & Build  |
    \           /
     🌈 🌈 🌈 🌈
    🎨 ARTIST 🎨
"#@,
        Mood::Productive => r#"
    💼 PRODUCTIVE 💼
     ⚡ ⚡ ⚡ ⚡ ⚡
    /             \
   |  Get Stuff  |
   |   Done!     |
    \             /
     ⚡ ⚡ ⚡ ⚡ ⚡
    💼 EFFICIENT 💼
"#@,
        Mood::Nostalgic => r#"
    📼 NOSTALGIC 📼
     🎵 🎵 🎵 🎵
    /             \
   |  Retro Vibes |
   |  & Memories  |
    \             /
     🎵 🎵 🎵 🎵
    📼 CLASSIC 📼
"#@,
        Mood::Adventurous => r#"
    🌌 ADVENTUROUS 🌌
     ⭐ ⭐ ⭐ ⭐ ⭐
    /               \
   |  Explore New  |
   |   Horizons!   |
    \               /
     ⭐ ⭐ ⭐ ⭐ ⭐
    🌌 EXPLORER 🌌
"#@,
        Mood::Zen => r#"
    🧘 ZEN 🧘
     ☯️ ☯️ ☯️ ☯️
    /         \
   |  Breathe |
   |  & Code  |
    \         /
     ☯️ ☯️ ☯️ ☯️
    🧘 PEACE 🧘
"#@,
    }
}

/// The ASCII-art block of a mood, as a string slice.
pub fn mood_art(m: Mood) -> (r: &'static str)
    ensures
        r@ == spec_art(m),
{
    match m {
        Mood::Focus => r#"
   (  )   (   )  )
    ) (   )  (  (
    ( )  (    ) )
    _____________
   <__Focus!!!__>
    -------------
        \
         \
            .--.
           |o_o |
           |:_/ |
          //   \ \
         (|     | )
        /'\_   _/`\
        \___)=(___/
"#,
        Mood::Chaotic => r#"
      .-"""-.
     / .===. \
     \/ 6 6 \/
     ( \___/ )
 ___ooo__V__ooo___
|  CHAOS MODE!!!  |
 -----------------
     \   ^__^
      \  (oo)\_______
         (__)\       )\/\
             ||----w |
             ||     ||
"#,
        Mood::Sadboi => r#"
      .-''''-.
     /        \
    |  .--.  |
    | (    ) |
     \ '--' /
      '-..-'
   Sadboi Vibes
   ~~~~~~~~~~~
    (︶︹︺)
"#,
        Mood::Energetic => r#"
    🔥 ENERGETIC 🔥
     ⚡ ⚡ ⚡ ⚡ ⚡
    /           \
   |  ROCK ON!  |
    \           /
     ⚡ ⚡ ⚡ ⚡ ⚡
    🔥 FIRE UP! 🔥
"#,
        Mood::Chill => r#"
    🌿 CHILL 🌿
     ~~~~~~~~~
    /         \
   |  Relax   |
   |  & Code  |
    \         /
     ~~~~~~~~~
    🌿 VIBES 🌿
"#,
        Mood::Creative => r#"
    🎨 CREATIVE 🎨
     🌈 🌈 🌈 🌈
    /           \
   |  Create   |
   |  & Build  |
    \           /
     🌈 🌈 🌈 🌈
    🎨 ARTIST 🎨
"#,
        Mood::Productive => r#"
    💼 PRODUCTIVE 💼
     ⚡ ⚡ ⚡ ⚡ ⚡
    /             \
   |  Get Stuff  |
   |   Done!     |
    \             /
     ⚡ ⚡ ⚡ ⚡ ⚡
    💼 EFFICIENT 💼
"#,
        Mood::Nostalgic => r#"
    📼 NOSTALGIC 📼
     🎵 🎵 🎵 🎵
    /             \
   |  Retro Vibes |
   |  & Memories  |
    \             /
     🎵 🎵 🎵 🎵
    📼 CLASSIC 📼
"#,
        Mood::Adventurous => r#"
    🌌 ADVENTUROUS 🌌
     ⭐ ⭐ ⭐ ⭐ ⭐
    /               \
   |  Explore New  |
   |   Horizons!   |
    \               /
     ⭐ ⭐ ⭐ ⭐ ⭐
    🌌 EXPLORER 🌌
"#,
        Mood::Zen => r#"
    🧘 ZEN 🧘
     ☯️ ☯️ ☯️ ☯️
    /         \
   |  Breathe |
   |  & Code  |
    \         /
     ☯️ ☯️ ☯️ ☯️
    🧘 PEACE 🧘
"#,
    }
}

/// Looks a mood's ASCII art up by name, in any casing: its art block when
/// the catalog knows the name, nothing otherwise.
pub fn get_ascii_art(mood: &str) -> (r: Option<&'static str>)
    ensures
        match spec_parse_mood(mood@) {
            Some(m) => r matches Some(a) && a@ == spec_art(m),
            None => r is None,
        },
{
    match parse_mood(mood) {
        Some(m) => Some(mood_art(m)),
        None => None,
    }
}

/// The ordered list of all known mood names.
pub fn get_available_moods() -> (r: Vec<String>)
    ensures
        r@.len() == MOOD_COUNT,
        forall|i: int| 0 <= i < MOOD_COUNT ==> r@[i]@ == spec_mood_name(spec_mood_at(i)),
{
    let mut r: Vec<String> = Vec::new();
    r.push(String::from_str("focus"));
    r.push(String::from_str("chaotic"));
    r.push(String::from_str("sadboi"));
    r.push(String::from_str("energetic"));
    r.push(String::from_str("chill"));
    r.push(String::from_str("creative"));
    r.push(String::from_str("productive"));
    r.push(String::from_str("nostalgic"));
    r.push(String::from_str("adventurous"));
    r.push(String::from_str("zen"));
    r
}

} // verus!
