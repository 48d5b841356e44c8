//! The faces that stand for contacts, and drawing one at random.

use vstd::prelude::*;

use crate::text::same_text;

verus! {

/// How many faces there are to draw from.
pub const FACES: usize = 30;

/// The face with number `i`.
pub open spec fn face(i: usize) -> Seq<char> {
    match i {
        0 => "(◕‿◕)"@,
        1 => "(◕‿◕✿)"@,
        2 => "(´｡• ᵕ •｡`)"@,
        3 => "(˘ᵕ˘)"@,
        4 => "( ´ ▽ ` )ﾉ"@,
        5 => "(*´∇`*)"@,
        6 => "ヽ(・∀・)ﾉ"@,
        7 => "(￣ω￣)"@,
        8 => "٩(◕‿◕｡)۶"@,
        9 => "(¬‿¬)"@,
        10 => "(✿◠‿◠)"@,
        11 => "(⌐■_■)"@,
        12 => "(っ◕‿◕)っ"@,
        13 => "( •̀ω•́ )✧"@,
        14 => "(づ｡◕‿‿◕｡)づ"@,
        15 => "(*^‿^*)"@,
        16 => "(^_^)v"@,
        17 => "(◍•ᴗ•◍)"@,
        18 => "(｡♥‿♥｡)"@,
        19 => "ʕ•ᴥ•ʔ"@,
        20 => "(=^･ω･^=)"@,
        21 => "(￣▽￣)"@,
        22 => "(ﾉ◕ヮ◕)ﾉ"@,
        23 => "ᕕ( ᐛ )ᕗ"@,
        24 => "(•‿•)"@,
        25 => "(• ε •)"@,
        26 => "(¬_¬)"@,
        27 => "(´• ω •`)"@,
        28 => "(✧ω✧)"@,
        _ => "(o´ω`o)"@,
    }
}

/// The face with number `i`.
pub fn face_at(i: usize) -> (s: &'static str)
    requires
        i < FACES,
    ensures
        s@ == face(i),
{
    match i {
        0 => "(◕‿◕)",
        1 => "(◕‿◕✿)",
        2 => "(´｡• ᵕ •｡`)",
        3 => "(˘ᵕ˘)",
        4 => "( ´ ▽ ` )ﾉ",
        5 => "(*´∇`*)",
        6 => "ヽ(・∀・)ﾉ",
        7 => "(￣ω￣)",
        8 => "٩(◕‿◕｡)۶",
        9 => "(¬‿¬)",
        10 => "(✿◠‿◠)",
        11 => "(⌐■_■)",
        12 => "(っ◕‿◕)っ",
        13 => "( •̀ω•́ )✧",
        14 => "(づ｡◕‿‿◕｡)づ",
        15 => "(*^‿^*)",
        16 => "(^_^)v",
        17 => "(◍•ᴗ•◍)",
        18 => "(｡♥‿♥｡)",
        19 => "ʕ•ᴥ•ʔ",
        20 => "(=^･ω･^=)",
        21 => "(￣▽￣)",
        22 => "(ﾉ◕ヮ◕)ﾉ",
        23 => "ᕕ( ᐛ )ᕗ",
        24 => "(•‿•)",
        25 => "(• ε •)",
        26 => "(¬_¬)",
        27 => "(´• ω •`)",
        28 => "(✧ω✧)",
        _ => "(o´ω`o)",
    }
}

/// `s` is one of the faces.
pub open spec fn is_face(s: Seq<char>) -> bool {
    exists|i: usize| i < FACES && s == #[trigger] face(i)
}

/// The face that a series of draws gives: the first that differs from the
/// current one, or face number zero where none does.
pub open spec fn drawn(current: Seq<char>, draws: Seq<usize>) -> Seq<char>
    decreases draws.len(),
{
    if draws.len() == 0 {
        face(0)
    } else if face(draws[0]) != current {
        face(draws[0])
    } else {
        drawn(current, draws.drop_first())
    }
}

/// Every draw is the number of a face.
pub open spec fn in_range(draws: Seq<usize>) -> bool {
    forall|i: int| 0 <= i < draws.len() ==> #[trigger] draws[i] < FACES
}

/// The face that a series of draws gives.
pub fn face_from_draws(current: &str, draws: &Vec<usize>) -> (s: String)
    requires
        in_range(draws@),
    ensures
        s@ == drawn(current@, draws@),
{
    let mut i: usize = 0;
    assert(draws@.skip(0) =~= draws@);
    while i < draws.len()
        invariant
            i <= draws.len(),
            in_range(draws@),
            drawn(current@, draws@.skip(i as int)) == drawn(current@, draws@),
        decreases draws.len() - i,
    {
        let candidate = face_at(draws[i]);
        assert(draws@.skip(i as int).drop_first() =~= draws@.skip(i + 1));
        if !same_text(candidate, current) {
            return candidate.to_owned();
        }
        i += 1;
    }
    face_at(0).to_owned()
}

/// `rand`'s `gen_range` over `0..n` on the thread's generator: some number below
/// `n`.
#[verifier::external_body]
fn random_below(n: usize) -> (i: usize)
    requires
        n > 0,
    ensures
        i < n,
{
    rand::Rng::gen_range(&mut rand::thread_rng(), 0..n)
}

/// What a random draw can give: a face, and another one than the current, unless
/// every draw hit the current one.
pub open spec fn could_be_drawn(current: Seq<char>, s: Seq<char>) -> bool {
    is_face(s) && (s != current || s == face(0))
}

/// Whatever the draws were, they give a face that could be drawn.
pub proof fn lemma_drawn(current: Seq<char>, draws: Seq<usize>)
    requires
        in_range(draws),
    ensures
        could_be_drawn(current, drawn(current, draws)),
    decreases draws.len(),
{
    if draws.len() == 0 {
        assert(is_face(face(0)));
    } else if face(draws[0]) == current {
        let rest = draws.drop_first();
        assert forall|i: int| 0 <= i < rest.len() implies #[trigger] rest[i] < FACES by {
            assert(rest[i] == draws[i + 1]);
        }
        lemma_drawn(current, rest);
    } else {
        assert(draws[0] < FACES);
        assert(is_face(face(draws[0])));
    }
}

/// Draws a face at random. A handful of draws avoids the current one, so that
/// drawing changes something.
pub fn pick_random_kaomoji(current: &str) -> (s: String)
    ensures
        could_be_drawn(current@, s@),
{
    let mut draws: Vec<usize> = Vec::new();
    let mut i: usize = 0;
    while i < 6
        invariant
            i <= 6,
            in_range(draws@),
        decreases 6 - i,
    {
        draws.push(random_below(FACES));
        i += 1;
    }
    proof {
        lemma_drawn(current@, draws@);
    }
    face_from_draws(current, &draws)
}

} // verus!
