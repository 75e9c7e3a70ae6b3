use vstd::prelude::*;
use vstd::string::*;
use crate::text::joined;

verus! {

/// The number of words that instance names are drawn from.
pub const WORD_COUNT: usize = 102;

/// The words that instance names are drawn from.
pub open spec fn name_words() -> Seq<&'static str> {
    seq![
        "able", "ache", "arch", "army", "aura", "avid", "axle", "baby", "bane", "bark",
        "beam", "bell", "bird", "bolt", "bump", "cake", "cave", "clip", "cold", "cove",
        "dart", "dash", "dive", "door", "dusk", "earl", "echo", "edge", "emit", "fall",
        "farm", "fizz", "flip", "fuzz", "gift", "girl", "glee", "golf", "gulp", "gush",
        "haze", "hike", "hope", "hush", "icon", "idea", "inky", "iron", "jade", "jinx",
        "jolt", "jump", "keen", "kiss", "kite", "lamb", "lark", "lime", "lush", "math",
        "mint", "moon", "mute", "myth", "nail", "nook", "note", "nova", "numb", "oath",
        "onyx", "ooze", "open", "park", "path", "pave", "puff", "quiz", "rain", "rave",
        "raze", "rush", "seed", "sift", "silk", "tilt", "time", "tint", "toss", "undo",
        "unit", "vast", "vibe", "vice", "wave", "wisp", "yawn", "yell", "yoga", "zero",
        "zest", "zone",
    ]
}

/// A character of a random identifier: a digit or a lower-case letter.
pub open spec fn is_id_char(c: char) -> bool {
    ('0' <= c && c <= '9') || ('a' <= c && c <= 'z')
}

/// Four characters, each a digit or a lower-case letter.
pub open spec fn is_random_id(s: Seq<char>) -> bool {
    s.len() == 4 && forall|i: int| 0 <= i < 4 ==> is_id_char(#[trigger] s[i])
}

/// `s` is one of the name words.
pub open spec fn is_name_word(s: Seq<char>) -> bool {
    exists|i: int| 0 <= i < name_words().len() && s == (#[trigger] name_words()[i])@
}

/// An instance identifier: a name word, a dash, and a random identifier.
pub open spec fn is_instance_id(s: Seq<char>) -> bool {
    exists|w: Seq<char>, id: Seq<char>|
        is_name_word(w) && is_random_id(id) && s == #[trigger] (w + "-"@ + id)
}

/// Relies on rand::random: a value drawn from the thread-local generator. Nothing is known
/// of it.
pub assume_specification<T>[ ::rand::random::<T> ]() -> (r: T)
    where
        ::rand::distributions::Standard: ::rand::distributions::Distribution<T>,
;

/// The characters of random identifiers, a digit or a lower-case letter each.
pub open spec fn id_chars() -> Seq<char> {
    "0123456789abcdefghijklmnopqrstuvwxyz"@
}

/// The identifier that four draws below 36 spell, one character of `id_chars` each.
pub open spec fn id_text(draws: Seq<usize>) -> Seq<char> {
    Seq::new(4, |i: int| id_chars()[draws[i] as int])
}

/// `n` reduced below `cap`.
pub fn below(n: usize, cap: usize) -> (r: usize)
    requires
        cap > 0,
    ensures
        r == n % cap,
{
    n % cap
}

/// A random number below `cap`.
fn random_below(cap: usize) -> (r: usize)
    requires
        cap > 0,
    ensures
        r < cap,
{
    below(::rand::random(), cap)
}

/// Name word number `idx`, after `prefix` and a dash where a prefix is given.
pub fn word_at(prefix: Option<&str>, idx: usize) -> (r: String)
    requires
        idx < WORD_COUNT,
    ensures
        prefix matches Some(p) ==> r@ == p@ + "-"@ + name_words()[idx as int]@,
        prefix is None ==> r@ == name_words()[idx as int]@,
{
    let words: [&str; 102] = [
        "able", "ache", "arch", "army", "aura", "avid", "axle", "baby", "bane", "bark",
        "beam", "bell", "bird", "bolt", "bump", "cake", "cave", "clip", "cold", "cove",
        "dart", "dash", "dive", "door", "dusk", "earl", "echo", "edge", "emit", "fall",
        "farm", "fizz", "flip", "fuzz", "gift", "girl", "glee", "golf", "gulp", "gush",
        "haze", "hike", "hope", "hush", "icon", "idea", "inky", "iron", "jade", "jinx",
        "jolt", "jump", "keen", "kiss", "kite", "lamb", "lark", "lime", "lush", "math",
        "mint", "moon", "mute", "myth", "nail", "nook", "note", "nova", "numb", "oath",
        "onyx", "ooze", "open", "park", "path", "pave", "puff", "quiz", "rain", "rave",
        "raze", "rush", "seed", "sift", "silk", "tilt", "time", "tint", "toss", "undo",
        "unit", "vast", "vibe", "vice", "wave", "wisp", "yawn", "yell", "yoga", "zero",
        "zest", "zone",
    ];
    assert(words@ =~= name_words());
    let selected = words[idx];
    match prefix {
        Some(p) => {
            let mut r = joined(p, "-");
            r.append(selected);
            r
        },
        None => selected.to_owned(),
    }
}

/// A random name word, after `prefix` and a dash where a prefix is given.
pub fn word(prefix: Option<&str>) -> (r: String)
    ensures
        prefix matches Some(p) ==> exists|w: Seq<char>|
            is_name_word(w) && r@ == #[trigger] (p@ + "-"@ + w),
        prefix is None ==> is_name_word(r@),
{
    let idx = random_below(WORD_COUNT);
    let r = word_at(prefix, idx);
    assert(is_name_word(name_words()[idx as int]@));
    r
}

/// The identifier spelled by four draws below 36.
pub fn id_from(draws: &[usize; 4]) -> (r: String)
    requires
        forall|i: int| 0 <= i < 4 ==> draws@[i] < 36,
    ensures
        r@ == id_text(draws@),
        is_random_id(r@),
{
    let table = "0123456789abcdefghijklmnopqrstuvwxyz";
    proof {
        reveal_strlit("0123456789abcdefghijklmnopqrstuvwxyz");
    }
    assert(table@.len() == 36);
    assert(forall|k: int| 0 <= k < 36 ==> is_id_char(#[trigger] id_chars()[k]));
    let mut r = String::new();
    let mut n: usize = 0;
    while n < 4
        invariant
            n <= 4,
            table@ == id_chars(),
            table@.len() == 36,
            forall|i: int| 0 <= i < 4 ==> draws@[i] < 36,
            r@.len() == n,
            forall|i: int| 0 <= i < n ==> r@[i] == id_chars()[draws@[i] as int],
        decreases 4 - n,
    {
        let d = draws[n];
        let c = table.substring_char(d, d + 1);
        assert(c@ =~= seq![id_chars()[d as int]]);
        r.append(c);
        n += 1;
    }
    assert(r@ =~= id_text(draws@));
    r
}

/// Four random characters, each a digit or a lower-case letter.
pub fn random_id() -> (r: String)
    ensures
        is_random_id(r@),
{
    let draws: [usize; 4] = [random_below(36), random_below(36), random_below(36), random_below(36)];
    id_from(&draws)
}

/// The instance identifier made of name word number `idx`, a dash, and the identifier
/// that `draws` spell.
pub fn instance_id_at(idx: usize, draws: &[usize; 4]) -> (r: String)
    requires
        idx < WORD_COUNT,
        forall|i: int| 0 <= i < 4 ==> draws@[i] < 36,
    ensures
        r@ == name_words()[idx as int]@ + "-"@ + id_text(draws@),
        is_instance_id(r@),
{
    let w = word_at(None, idx);
    let id = id_from(draws);
    let mut r = joined(w.as_str(), "-");
    r.append(id.as_str());
    assert(is_name_word(w@));
    assert(r@ == w@ + "-"@ + id@);
    r
}

/// A fresh instance identifier: a random name word, a dash, and a random identifier.
pub fn new_instance_id() -> (r: String)
    ensures
        is_instance_id(r@),
{
    let idx = random_below(WORD_COUNT);
    let draws: [usize; 4] = [random_below(36), random_below(36), random_below(36), random_below(36)];
    instance_id_at(idx, &draws)
}

} // verus!
