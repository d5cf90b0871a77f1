use vstd::prelude::*;

verus! {

/// The twelve zodiac constellations along the ecliptic, in the order of
/// their sectors, starting from 0 degrees of longitude.
#[derive(Debug, Clone, Copy, PartialEq, Eq, Structural)]
pub enum Zodiac {
    Pisces,
    Aries,
    Taurus,
    Gemini,
    Cancer,
    Leo,
    Virgo,
    Libra,
    Scorpio,
    Sagittarius,
    Capricorn,
    Aquarius,
}

/// Number of sectors in the threshold table.
pub const SECTOR_COUNT: usize = 12;

/// Upper bound of sector `i` of the table, in hundredths of a degree.
pub open spec fn sector_bound(i: int) -> int {
    if i == 0 {
        3318
    } else if i == 1 {
        5116
    } else if i == 2 {
        9344
    } else if i == 3 {
        11948
    } else if i == 4 {
        13530
    } else if i == 5 {
        17334
    } else if i == 6 {
        22417
    } else if i == 7 {
        24257
    } else if i == 8 {
        27126
    } else if i == 9 {
        30249
    } else if i == 10 {
        31172
    } else {
        34858
    }
}

/// The constellation of sector `i` of the table.
pub open spec fn sector_sign(i: int) -> Zodiac {
    if i == 0 {
        Zodiac::Pisces
    } else if i == 1 {
        Zodiac::Aries
    } else if i == 2 {
        Zodiac::Taurus
    } else if i == 3 {
        Zodiac::Gemini
    } else if i == 4 {
        Zodiac::Cancer
    } else if i == 5 {
        Zodiac::Leo
    } else if i == 6 {
        Zodiac::Virgo
    } else if i == 7 {
        Zodiac::Libra
    } else if i == 8 {
        Zodiac::Scorpio
    } else if i == 9 {
        Zodiac::Sagittarius
    } else if i == 10 {
        Zodiac::Capricorn
    } else {
        Zodiac::Aquarius
    }
}

/// The sign chosen by scanning the table from sector `i` on: the first
/// sector whose bound lies strictly above `c`; Pisces when none does.
pub open spec fn first_sector_above(c: int, i: int) -> Zodiac
    decreases 12 - i,
{
    if i < 0 || i >= 12 {
        Zodiac::Pisces
    } else if c < sector_bound(i) {
        sector_sign(i)
    } else {
        first_sector_above(c, i + 1)
    }
}

/// The sign of an ecliptic longitude of `c` hundredths of a degree.
pub open spec fn zodiac_of(c: int) -> Zodiac {
    first_sector_above(c, 0)
}

/// Each longitude falls in exactly one sector of the table: the sign of a
/// longitude is Pisces exactly when it lies below the first bound or at or
/// above the last one, and any other sign exactly when the longitude lies
/// from the bound of the sector before it up to, but not including, its own.
pub proof fn lemma_sector_of_longitude(c: int)
    ensures
        zodiac_of(c) == Zodiac::Pisces <==> (c < sector_bound(0) || c >= sector_bound(11)),
        forall|k: int|
            1 <= k < 12 ==> (zodiac_of(c) == #[trigger] sector_sign(k) <==> sector_bound(k - 1) <= c
                < sector_bound(k)),
{
    reveal_with_fuel(first_sector_above, 13);
}

impl Zodiac {
    /// Position of the sign in the table, from 0 (Pisces) to 11 (Aquarius).
    pub open spec fn spec_index(self) -> int {
        match self {
            Zodiac::Pisces => 0,
            Zodiac::Aries => 1,
            Zodiac::Taurus => 2,
            Zodiac::Gemini => 3,
            Zodiac::Cancer => 4,
            Zodiac::Leo => 5,
            Zodiac::Virgo => 6,
            Zodiac::Libra => 7,
            Zodiac::Scorpio => 8,
            Zodiac::Sagittarius => 9,
            Zodiac::Capricorn => 10,
            Zodiac::Aquarius => 11,
        }
    }

    /// Upper bound of the sign's sector in hundredths of a degree.
    pub fn upper_bound(&self) -> (r: i64)
        ensures
            r as int == sector_bound(self.spec_index()),
    {
        match self {
            Zodiac::Pisces => 3318,
            Zodiac::Aries => 5116,
            Zodiac::Taurus => 9344,
            Zodiac::Gemini => 11948,
            Zodiac::Cancer => 13530,
            Zodiac::Leo => 17334,
            Zodiac::Virgo => 22417,
            Zodiac::Libra => 24257,
            Zodiac::Scorpio => 27126,
            Zodiac::Sagittarius => 30249,
            Zodiac::Capricorn => 31172,
            Zodiac::Aquarius => 34858,
        }
    }

    /// The sign of sector `i` of the table.
    pub fn from_sector(i: usize) -> (r: Zodiac)
        requires
            i < SECTOR_COUNT,
        ensures
            r == sector_sign(i as int),
            r.spec_index() == i,
    {
        match i {
            0 => Zodiac::Pisces,
            1 => Zodiac::Aries,
            2 => Zodiac::Taurus,
            3 => Zodiac::Gemini,
            4 => Zodiac::Cancer,
            5 => Zodiac::Leo,
            6 => Zodiac::Virgo,
            7 => Zodiac::Libra,
            8 => Zodiac::Scorpio,
            9 => Zodiac::Sagittarius,
            10 => Zodiac::Capricorn,
            _ => Zodiac::Aquarius,
        }
    }

    /// The sign of an ecliptic longitude given in hundredths of a degree:
    /// the table is scanned in order and the first sector whose upper bound
    /// lies strictly above the longitude wins. A longitude past the last
    /// bound (the wrap towards 360 degrees, or beyond) falls back to Pisces.
    pub fn from_centidegrees(c: i64) -> (r: Zodiac)
        ensures
            r == zodiac_of(c as int),
    {
        let mut i: usize = 0;
        while i < SECTOR_COUNT
            invariant
                i <= SECTOR_COUNT,
                first_sector_above(c as int, i as int) == zodiac_of(c as int),
            decreases SECTOR_COUNT - i,
        {
            let sign = Zodiac::from_sector(i);
            if c < sign.upper_bound() {
                return sign;
            }
            i = i + 1;
        }
        Zodiac::Pisces
    }
}

} // verus!
