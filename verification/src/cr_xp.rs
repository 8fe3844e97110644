use vstd::prelude::*;
use crate::error::RulesError;
use crate::text::same_text;

verus! {

/// A monster's challenge rating.
#[derive(Debug, Clone, Copy, PartialEq, Eq, PartialOrd, Ord, Structural)]
pub enum ChallengeRating {
    Zero,
    OneEighth,
    OneQuarter,
    OneHalf,
    One,
    Two,
    Three,
    Four,
    Five,
    Six,
    Seven,
    Eight,
    Nine,
    Ten,
    Eleven,
    Twelve,
    Thirteen,
    Fourteen,
    Fifteen,
    Sixteen,
    Seventeen,
    Eighteen,
    Nineteen,
    Twenty,
    TwentyOne,
    TwentyTwo,
    TwentyThree,
    TwentyFour,
    TwentyFive,
    TwentySix,
    TwentySeven,
    TwentyEight,
    TwentyNine,
    Thirty,
}

/// Number of challenge ratings.
pub const CR_COUNT: usize = 34;

/// Position of a rating in increasing order.
pub open spec fn cr_index(cr: ChallengeRating) -> int {
    match cr {
        ChallengeRating::Zero => 0,
        ChallengeRating::OneEighth => 1,
        ChallengeRating::OneQuarter => 2,
        ChallengeRating::OneHalf => 3,
        ChallengeRating::One => 4,
        ChallengeRating::Two => 5,
        ChallengeRating::Three => 6,
        ChallengeRating::Four => 7,
        ChallengeRating::Five => 8,
        ChallengeRating::Six => 9,
        ChallengeRating::Seven => 10,
        ChallengeRating::Eight => 11,
        ChallengeRating::Nine => 12,
        ChallengeRating::Ten => 13,
        ChallengeRating::Eleven => 14,
        ChallengeRating::Twelve => 15,
        ChallengeRating::Thirteen => 16,
        ChallengeRating::Fourteen => 17,
        ChallengeRating::Fifteen => 18,
        ChallengeRating::Sixteen => 19,
        ChallengeRating::Seventeen => 20,
        ChallengeRating::Eighteen => 21,
        ChallengeRating::Nineteen => 22,
        ChallengeRating::Twenty => 23,
        ChallengeRating::TwentyOne => 24,
        ChallengeRating::TwentyTwo => 25,
        ChallengeRating::TwentyThree => 26,
        ChallengeRating::TwentyFour => 27,
        ChallengeRating::TwentyFive => 28,
        ChallengeRating::TwentySix => 29,
        ChallengeRating::TwentySeven => 30,
        ChallengeRating::TwentyEight => 31,
        ChallengeRating::TwentyNine => 32,
        ChallengeRating::Thirty => 33,
    }
}

/// The rating at a position in increasing order.
pub open spec fn cr_at(i: int) -> ChallengeRating {
    if i == 0 { ChallengeRating::Zero
    } else if i == 1 { ChallengeRating::OneEighth
    } else if i == 2 { ChallengeRating::OneQuarter
    } else if i == 3 { ChallengeRating::OneHalf
    } else if i == 4 { ChallengeRating::One
    } else if i == 5 { ChallengeRating::Two
    } else if i == 6 { ChallengeRating::Three
    } else if i == 7 { ChallengeRating::Four
    } else if i == 8 { ChallengeRating::Five
    } else if i == 9 { ChallengeRating::Six
    } else if i == 10 { ChallengeRating::Seven
    } else if i == 11 { ChallengeRating::Eight
    } else if i == 12 { ChallengeRating::Nine
    } else if i == 13 { ChallengeRating::Ten
    } else if i == 14 { ChallengeRating::Eleven
    } else if i == 15 { ChallengeRating::Twelve
    } else if i == 16 { ChallengeRating::Thirteen
    } else if i == 17 { ChallengeRating::Fourteen
    } else if i == 18 { ChallengeRating::Fifteen
    } else if i == 19 { ChallengeRating::Sixteen
    } else if i == 20 { ChallengeRating::Seventeen
    } else if i == 21 { ChallengeRating::Eighteen
    } else if i == 22 { ChallengeRating::Nineteen
    } else if i == 23 { ChallengeRating::Twenty
    } else if i == 24 { ChallengeRating::TwentyOne
    } else if i == 25 { ChallengeRating::TwentyTwo
    } else if i == 26 { ChallengeRating::TwentyThree
    } else if i == 27 { ChallengeRating::TwentyFour
    } else if i == 28 { ChallengeRating::TwentyFive
    } else if i == 29 { ChallengeRating::TwentySix
    } else if i == 30 { ChallengeRating::TwentySeven
    } else if i == 31 { ChallengeRating::TwentyEight
    } else if i == 32 { ChallengeRating::TwentyNine
    } else { ChallengeRating::Thirty }
}

/// How a rating is written.
pub open spec fn cr_label(cr: ChallengeRating) -> Seq<char> {
    match cr {
        ChallengeRating::Zero => "0"@,
        ChallengeRating::OneEighth => "1/8"@,
        ChallengeRating::OneQuarter => "1/4"@,
        ChallengeRating::OneHalf => "1/2"@,
        ChallengeRating::One => "1"@,
        ChallengeRating::Two => "2"@,
        ChallengeRating::Three => "3"@,
        ChallengeRating::Four => "4"@,
        ChallengeRating::Five => "5"@,
        ChallengeRating::Six => "6"@,
        ChallengeRating::Seven => "7"@,
        ChallengeRating::Eight => "8"@,
        ChallengeRating::Nine => "9"@,
        ChallengeRating::Ten => "10"@,
        ChallengeRating::Eleven => "11"@,
        ChallengeRating::Twelve => "12"@,
        ChallengeRating::Thirteen => "13"@,
        ChallengeRating::Fourteen => "14"@,
        ChallengeRating::Fifteen => "15"@,
        ChallengeRating::Sixteen => "16"@,
        ChallengeRating::Seventeen => "17"@,
        ChallengeRating::Eighteen => "18"@,
        ChallengeRating::Nineteen => "19"@,
        ChallengeRating::Twenty => "20"@,
        ChallengeRating::TwentyOne => "21"@,
        ChallengeRating::TwentyTwo => "22"@,
        ChallengeRating::TwentyThree => "23"@,
        ChallengeRating::TwentyFour => "24"@,
        ChallengeRating::TwentyFive => "25"@,
        ChallengeRating::TwentySix => "26"@,
        ChallengeRating::TwentySeven => "27"@,
        ChallengeRating::TwentyEight => "28"@,
        ChallengeRating::TwentyNine => "29"@,
        ChallengeRating::Thirty => "30"@,
    }
}

/// Experience points awarded for a monster of the rating.
pub open spec fn cr_xp(cr: ChallengeRating) -> u32 {
    match cr {
        ChallengeRating::Zero => 0,
        ChallengeRating::OneEighth => 25,
        ChallengeRating::OneQuarter => 50,
        ChallengeRating::OneHalf => 100,
        ChallengeRating::One => 200,
        ChallengeRating::Two => 450,
        ChallengeRating::Three => 700,
        ChallengeRating::Four => 1100,
        ChallengeRating::Five => 1800,
        ChallengeRating::Six => 2300,
        ChallengeRating::Seven => 2900,
        ChallengeRating::Eight => 3900,
        ChallengeRating::Nine => 5000,
        ChallengeRating::Ten => 5900,
        ChallengeRating::Eleven => 7200,
        ChallengeRating::Twelve => 8400,
        ChallengeRating::Thirteen => 10000,
        ChallengeRating::Fourteen => 11500,
        ChallengeRating::Fifteen => 13000,
        ChallengeRating::Sixteen => 15000,
        ChallengeRating::Seventeen => 18000,
        ChallengeRating::Eighteen => 20000,
        ChallengeRating::Nineteen => 22000,
        ChallengeRating::Twenty => 25000,
        ChallengeRating::TwentyOne => 33000,
        ChallengeRating::TwentyTwo => 41000,
        ChallengeRating::TwentyThree => 50000,
        ChallengeRating::TwentyFour => 62000,
        ChallengeRating::TwentyFive => 75000,
        ChallengeRating::TwentySix => 90000,
        ChallengeRating::TwentySeven => 105000,
        ChallengeRating::TwentyEight => 120000,
        ChallengeRating::TwentyNine => 135000,
        ChallengeRating::Thirty => 155000,
    }
}

/// Proficiency bonus of a monster of the rating.
pub open spec fn cr_proficiency(cr: ChallengeRating) -> i32 {
    match cr {
        ChallengeRating::Zero => 2,
        ChallengeRating::OneEighth => 2,
        ChallengeRating::OneQuarter => 2,
        ChallengeRating::OneHalf => 2,
        ChallengeRating::One => 2,
        ChallengeRating::Two => 2,
        ChallengeRating::Three => 2,
        ChallengeRating::Four => 2,
        ChallengeRating::Five => 3,
        ChallengeRating::Six => 3,
        ChallengeRating::Seven => 3,
        ChallengeRating::Eight => 3,
        ChallengeRating::Nine => 4,
        ChallengeRating::Ten => 4,
        ChallengeRating::Eleven => 4,
        ChallengeRating::Twelve => 4,
        ChallengeRating::Thirteen => 5,
        ChallengeRating::Fourteen => 5,
        ChallengeRating::Fifteen => 5,
        ChallengeRating::Sixteen => 5,
        ChallengeRating::Seventeen => 6,
        ChallengeRating::Eighteen => 6,
        ChallengeRating::Nineteen => 6,
        ChallengeRating::Twenty => 6,
        ChallengeRating::TwentyOne => 7,
        ChallengeRating::TwentyTwo => 7,
        ChallengeRating::TwentyThree => 7,
        ChallengeRating::TwentyFour => 7,
        ChallengeRating::TwentyFive => 8,
        ChallengeRating::TwentySix => 8,
        ChallengeRating::TwentySeven => 8,
        ChallengeRating::TwentyEight => 8,
        ChallengeRating::TwentyNine => 8,
        ChallengeRating::Thirty => 8,
    }
}

/// Distance between an experience value and a rating's experience.
pub open spec fn xp_distance(xp: u32, cr: ChallengeRating) -> int {
    if xp >= cr_xp(cr) { xp - cr_xp(cr) } else { cr_xp(cr) - xp }
}

pub proof fn lemma_cr_index(cr: ChallengeRating)
    ensures
        0 <= cr_index(cr) < CR_COUNT,
        cr_at(cr_index(cr)) == cr,
{
}

pub proof fn lemma_cr_at(i: int)
    requires
        0 <= i < CR_COUNT,
    ensures
        cr_index(cr_at(i)) == i,
{
}

/// The rating at a position in increasing order.
pub fn cr_from_index(i: usize) -> (cr: ChallengeRating)
    requires
        i < CR_COUNT,
    ensures
        cr == cr_at(i as int),
{
    match i {
        0 => ChallengeRating::Zero,
        1 => ChallengeRating::OneEighth,
        2 => ChallengeRating::OneQuarter,
        3 => ChallengeRating::OneHalf,
        4 => ChallengeRating::One,
        5 => ChallengeRating::Two,
        6 => ChallengeRating::Three,
        7 => ChallengeRating::Four,
        8 => ChallengeRating::Five,
        9 => ChallengeRating::Six,
        10 => ChallengeRating::Seven,
        11 => ChallengeRating::Eight,
        12 => ChallengeRating::Nine,
        13 => ChallengeRating::Ten,
        14 => ChallengeRating::Eleven,
        15 => ChallengeRating::Twelve,
        16 => ChallengeRating::Thirteen,
        17 => ChallengeRating::Fourteen,
        18 => ChallengeRating::Fifteen,
        19 => ChallengeRating::Sixteen,
        20 => ChallengeRating::Seventeen,
        21 => ChallengeRating::Eighteen,
        22 => ChallengeRating::Nineteen,
        23 => ChallengeRating::Twenty,
        24 => ChallengeRating::TwentyOne,
        25 => ChallengeRating::TwentyTwo,
        26 => ChallengeRating::TwentyThree,
        27 => ChallengeRating::TwentyFour,
        28 => ChallengeRating::TwentyFive,
        29 => ChallengeRating::TwentySix,
        30 => ChallengeRating::TwentySeven,
        31 => ChallengeRating::TwentyEight,
        32 => ChallengeRating::TwentyNine,
        _ => ChallengeRating::Thirty,
    }
}

impl ChallengeRating {
    /// Reads a rating written `0`, `1/8`, `1/4`, `1/2` or `1` to `30`.
    pub fn from_str(s: &str) -> (res: Result<Self, RulesError>)
        ensures
            match cr_of_label(s@) {
                Some(cr) => res == Ok::<ChallengeRating, RulesError>(cr),
                None => res is Err,
            },
            res matches Err(e) ==> e matches RulesError::InvalidInput(m) && m@ == "Invalid CR: "@ + s@,
    {
        let mut i: usize = 0;
        while i < CR_COUNT
            invariant
                i <= CR_COUNT,
                forall|j: int| 0 <= j < i ==> cr_label(#[trigger] cr_at(j)) != s@,
            decreases CR_COUNT - i,
        {
            let cr = cr_from_index(i);
            let label = cr.to_string();
            if same_text(label.as_str(), s) {
                proof {
                    let c = choose|c: ChallengeRating| #[trigger] cr_label(c) == s@;
                    lemma_labels_distinct(c, cr);
                }
                return Ok(cr);
            }
            i = i + 1;
        }
        proof {
            assert forall|cr: ChallengeRating| #[trigger] cr_label(cr) != s@ by {
                lemma_cr_index(cr);
                assert(cr_label(cr_at(cr_index(cr))) != s@);
            }
        }
        let mut m = String::from_str("Invalid CR: ");
        m.append(s);
        Err(RulesError::InvalidInput(m))
    }

    /// How the rating is written.
    pub fn to_string(&self) -> (r: String)
        ensures
            r@ == cr_label(*self),
    {
        match self {
            ChallengeRating::Zero => String::from_str("0"),
            ChallengeRating::OneEighth => String::from_str("1/8"),
            ChallengeRating::OneQuarter => String::from_str("1/4"),
            ChallengeRating::OneHalf => String::from_str("1/2"),
            ChallengeRating::One => String::from_str("1"),
            ChallengeRating::Two => String::from_str("2"),
            ChallengeRating::Three => String::from_str("3"),
            ChallengeRating::Four => String::from_str("4"),
            ChallengeRating::Five => String::from_str("5"),
            ChallengeRating::Six => String::from_str("6"),
            ChallengeRating::Seven => String::from_str("7"),
            ChallengeRating::Eight => String::from_str("8"),
            ChallengeRating::Nine => String::from_str("9"),
            ChallengeRating::Ten => String::from_str("10"),
            ChallengeRating::Eleven => String::from_str("11"),
            ChallengeRating::Twelve => String::from_str("12"),
            ChallengeRating::Thirteen => String::from_str("13"),
            ChallengeRating::Fourteen => String::from_str("14"),
            ChallengeRating::Fifteen => String::from_str("15"),
            ChallengeRating::Sixteen => String::from_str("16"),
            ChallengeRating::Seventeen => String::from_str("17"),
            ChallengeRating::Eighteen => String::from_str("18"),
            ChallengeRating::Nineteen => String::from_str("19"),
            ChallengeRating::Twenty => String::from_str("20"),
            ChallengeRating::TwentyOne => String::from_str("21"),
            ChallengeRating::TwentyTwo => String::from_str("22"),
            ChallengeRating::TwentyThree => String::from_str("23"),
            ChallengeRating::TwentyFour => String::from_str("24"),
            ChallengeRating::TwentyFive => String::from_str("25"),
            ChallengeRating::TwentySix => String::from_str("26"),
            ChallengeRating::TwentySeven => String::from_str("27"),
            ChallengeRating::TwentyEight => String::from_str("28"),
            ChallengeRating::TwentyNine => String::from_str("29"),
            ChallengeRating::Thirty => String::from_str("30"),
        }
    }

    /// Experience points for a monster of this rating.
    pub fn to_xp(&self) -> (xp: u32)
        ensures
            xp == cr_xp(*self),
    {
        match self {
            ChallengeRating::Zero => 0,
            ChallengeRating::OneEighth => 25,
            ChallengeRating::OneQuarter => 50,
            ChallengeRating::OneHalf => 100,
            ChallengeRating::One => 200,
            ChallengeRating::Two => 450,
            ChallengeRating::Three => 700,
            ChallengeRating::Four => 1100,
            ChallengeRating::Five => 1800,
            ChallengeRating::Six => 2300,
            ChallengeRating::Seven => 2900,
            ChallengeRating::Eight => 3900,
            ChallengeRating::Nine => 5000,
            ChallengeRating::Ten => 5900,
            ChallengeRating::Eleven => 7200,
            ChallengeRating::Twelve => 8400,
            ChallengeRating::Thirteen => 10000,
            ChallengeRating::Fourteen => 11500,
            ChallengeRating::Fifteen => 13000,
            ChallengeRating::Sixteen => 15000,
            ChallengeRating::Seventeen => 18000,
            ChallengeRating::Eighteen => 20000,
            ChallengeRating::Nineteen => 22000,
            ChallengeRating::Twenty => 25000,
            ChallengeRating::TwentyOne => 33000,
            ChallengeRating::TwentyTwo => 41000,
            ChallengeRating::TwentyThree => 50000,
            ChallengeRating::TwentyFour => 62000,
            ChallengeRating::TwentyFive => 75000,
            ChallengeRating::TwentySix => 90000,
            ChallengeRating::TwentySeven => 105000,
            ChallengeRating::TwentyEight => 120000,
            ChallengeRating::TwentyNine => 135000,
            ChallengeRating::Thirty => 155000,
        }
    }

    /// Proficiency bonus of a monster of this rating.
    pub fn to_proficiency_bonus(&self) -> (p: i32)
        ensures
            p == cr_proficiency(*self),
    {
        match self {
            ChallengeRating::Zero => 2,
            ChallengeRating::OneEighth => 2,
            ChallengeRating::OneQuarter => 2,
            ChallengeRating::OneHalf => 2,
            ChallengeRating::One => 2,
            ChallengeRating::Two => 2,
            ChallengeRating::Three => 2,
            ChallengeRating::Four => 2,
            ChallengeRating::Five => 3,
            ChallengeRating::Six => 3,
            ChallengeRating::Seven => 3,
            ChallengeRating::Eight => 3,
            ChallengeRating::Nine => 4,
            ChallengeRating::Ten => 4,
            ChallengeRating::Eleven => 4,
            ChallengeRating::Twelve => 4,
            ChallengeRating::Thirteen => 5,
            ChallengeRating::Fourteen => 5,
            ChallengeRating::Fifteen => 5,
            ChallengeRating::Sixteen => 5,
            ChallengeRating::Seventeen => 6,
            ChallengeRating::Eighteen => 6,
            ChallengeRating::Nineteen => 6,
            ChallengeRating::Twenty => 6,
            ChallengeRating::TwentyOne => 7,
            ChallengeRating::TwentyTwo => 7,
            ChallengeRating::TwentyThree => 7,
            ChallengeRating::TwentyFour => 7,
            ChallengeRating::TwentyFive => 8,
            ChallengeRating::TwentySix => 8,
            ChallengeRating::TwentySeven => 8,
            ChallengeRating::TwentyEight => 8,
            ChallengeRating::TwentyNine => 8,
            ChallengeRating::Thirty => 8,
        }
    }
}

/// The rating whose experience is closest to `xp`; of ratings equally
/// close, the lowest.
pub fn xp_to_cr_approximate(xp: u32) -> (cr: ChallengeRating)
    ensures
        forall|c: ChallengeRating| xp_distance(xp, cr) <= #[trigger] xp_distance(xp, c),
        forall|c: ChallengeRating| cr_index(c) < cr_index(cr) ==> xp_distance(xp, cr) < #[trigger] xp_distance(xp, c),
{
    let mut closest = ChallengeRating::Zero;
    let mut min_diff: u32 = u32::MAX;
    let mut i: usize = 0;
    while i < CR_COUNT
        invariant
            i <= CR_COUNT,
            i == 0 ==> closest == ChallengeRating::Zero && min_diff == u32::MAX,
            i > 0 ==> cr_index(closest) < i && min_diff == xp_distance(xp, closest),
            forall|j: int| 0 <= j < i ==> min_diff <= xp_distance(xp, #[trigger] cr_at(j)),
            forall|j: int| 0 <= j < i && j < cr_index(closest) ==> min_diff < xp_distance(xp, #[trigger] cr_at(j)),
        decreases CR_COUNT - i,
    {
        let cr = cr_from_index(i);
        proof { lemma_cr_at(i as int); }
        let cr_xp_value = cr.to_xp();
        let diff = if xp >= cr_xp_value { xp - cr_xp_value } else { cr_xp_value - xp };
        if diff < min_diff || i == 0 && diff == min_diff {
            min_diff = diff;
            closest = cr;
        }
        i = i + 1;
    }
    proof {
        assert forall|c: ChallengeRating| xp_distance(xp, closest) <= #[trigger] xp_distance(xp, c) by {
            lemma_cr_index(c);
        }
        assert forall|c: ChallengeRating| cr_index(c) < cr_index(closest) implies xp_distance(xp, closest) < #[trigger] xp_distance(xp, c) by {
            lemma_cr_index(c);
        }
    }
    closest
}

proof fn lemma_xp_chain(i: int, j: int)
    requires
        0 <= i < j < CR_COUNT,
    ensures
        cr_xp(cr_at(i)) < cr_xp(cr_at(j)),
    decreases j - i,
{
    if j > i + 1 {
        lemma_xp_chain(i, j - 1);
    }
}

/// A higher challenge rating is worth strictly more experience.
pub proof fn law_xp_increases_with_rating(a: ChallengeRating, b: ChallengeRating)
    requires
        cr_index(a) < cr_index(b),
    ensures
        cr_xp(a) < cr_xp(b),
{
    lemma_cr_index(a);
    lemma_cr_index(b);
    lemma_xp_chain(cr_index(a), cr_index(b));
}

/// Different ratings are written differently.
pub proof fn lemma_labels_distinct(a: ChallengeRating, b: ChallengeRating)
    ensures
        cr_label(a) == cr_label(b) ==> a == b,
{
    reveal_strlit("0");
    reveal_strlit("1/8");
    reveal_strlit("1/4");
    reveal_strlit("1/2");
    reveal_strlit("1");
    reveal_strlit("2");
    reveal_strlit("3");
    reveal_strlit("4");
    reveal_strlit("5");
    reveal_strlit("6");
    reveal_strlit("7");
    reveal_strlit("8");
    reveal_strlit("9");
    reveal_strlit("10");
    reveal_strlit("11");
    reveal_strlit("12");
    reveal_strlit("13");
    reveal_strlit("14");
    reveal_strlit("15");
    reveal_strlit("16");
    reveal_strlit("17");
    reveal_strlit("18");
    reveal_strlit("19");
    reveal_strlit("20");
    reveal_strlit("21");
    reveal_strlit("22");
    reveal_strlit("23");
    reveal_strlit("24");
    reveal_strlit("25");
    reveal_strlit("26");
    reveal_strlit("27");
    reveal_strlit("28");
    reveal_strlit("29");
    reveal_strlit("30");
    if cr_label(a) == cr_label(b) {
        assert(cr_label(a).len() == cr_label(b).len());
        assert(cr_label(a)[0] == cr_label(b)[0]);
        if cr_label(a).len() > 1 {
            assert(cr_label(a)[1] == cr_label(b)[1]);
        }
        if cr_label(a).len() > 2 {
            assert(cr_label(a)[2] == cr_label(b)[2]);
        }
    }
}

/// The rating written `s`, if any.
pub open spec fn cr_of_label(s: Seq<char>) -> Option<ChallengeRating> {
    if exists|cr: ChallengeRating| #[trigger] cr_label(cr) == s {
        Some(choose|cr: ChallengeRating| #[trigger] cr_label(cr) == s)
    } else {
        None
    }
}

/// Reading the written form of a rating gives the rating back.
pub proof fn law_cr_text_round_trip(cr: ChallengeRating)
    ensures
        cr_of_label(cr_label(cr)) == Some(cr),
{
    assert(exists|c: ChallengeRating| #[trigger] cr_label(c) == cr_label(cr));
    let c = choose|c: ChallengeRating| #[trigger] cr_label(c) == cr_label(cr);
    lemma_labels_distinct(c, cr);
}

/// A higher challenge rating never has a lower proficiency bonus.
pub proof fn law_proficiency_nondecreasing(a: ChallengeRating, b: ChallengeRating)
    requires
        cr_index(a) <= cr_index(b),
    ensures
        cr_proficiency(a) <= cr_proficiency(b),
{
    lemma_cr_index(a);
    lemma_cr_index(b);
}

} // verus!
