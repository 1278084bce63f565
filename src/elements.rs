//! CPK conventions for drawing atoms: a colour and a van der Waals radius for each
//! element, the element given by its atomic number.
use vstd::prelude::*;

verus! {

/// A colour with red, green, blue and alpha channels, each in thousandths of full
/// intensity (0 to 1000).
#[derive(Clone, Copy, Debug, PartialEq, Eq, Structural)]
pub struct Rgba {
    pub red: u16,
    pub green: u16,
    pub blue: u16,
    pub alpha: u16,
}

/// The CPK colour of the element with atomic number `z`; elements without one
/// of their own are pink.
pub open spec fn cpk_color(z: usize) -> Rgba {
    match z {
        1 => Rgba { red: 1000, green: 1000, blue: 1000, alpha: 1000 },  // H
        2 => Rgba { red: 851, green: 1000, blue: 1000, alpha: 1000 },  // He
        3 => Rgba { red: 800, green: 502, blue: 1000, alpha: 1000 },  // Li
        4 => Rgba { red: 761, green: 1000, blue: 0, alpha: 1000 },  // Be
        5 => Rgba { red: 1000, green: 710, blue: 710, alpha: 1000 },  // B
        6 => Rgba { red: 565, green: 565, blue: 565, alpha: 1000 },  // C
        7 => Rgba { red: 188, green: 314, blue: 973, alpha: 1000 },  // N
        8 => Rgba { red: 1000, green: 51, blue: 51, alpha: 1000 },  // O
        9 => Rgba { red: 565, green: 878, blue: 314, alpha: 1000 },  // F
        10 => Rgba { red: 702, green: 890, blue: 961, alpha: 1000 },  // Ne
        11 => Rgba { red: 671, green: 361, blue: 949, alpha: 1000 },  // Na
        12 => Rgba { red: 541, green: 1000, blue: 0, alpha: 1000 },  // Mg
        13 => Rgba { red: 749, green: 651, blue: 651, alpha: 1000 },  // Al
        14 => Rgba { red: 941, green: 784, blue: 627, alpha: 1000 },  // Si
        15 => Rgba { red: 1000, green: 502, blue: 0, alpha: 1000 },  // P
        16 => Rgba { red: 1000, green: 1000, blue: 188, alpha: 1000 },  // S
        17 => Rgba { red: 122, green: 941, blue: 122, alpha: 1000 },  // Cl
        18 => Rgba { red: 502, green: 820, blue: 890, alpha: 1000 },  // Ar
        19 => Rgba { red: 561, green: 251, blue: 831, alpha: 1000 },  // K
        20 => Rgba { red: 239, green: 1000, blue: 0, alpha: 1000 },  // Ca
        26 => Rgba { red: 878, green: 400, blue: 200, alpha: 1000 },  // Fe
        29 => Rgba { red: 784, green: 502, blue: 200, alpha: 1000 },  // Cu
        30 => Rgba { red: 490, green: 502, blue: 690, alpha: 1000 },  // Zn
        35 => Rgba { red: 651, green: 161, blue: 161, alpha: 1000 },  // Br
        47 => Rgba { red: 753, green: 753, blue: 753, alpha: 1000 },  // Ag
        53 => Rgba { red: 580, green: 0, blue: 580, alpha: 1000 },  // I
        79 => Rgba { red: 1000, green: 820, blue: 137, alpha: 1000 },  // Au
        82 => Rgba { red: 341, green: 349, blue: 380, alpha: 1000 },  // Pb
        92 => Rgba { red: 0, green: 561, blue: 1000, alpha: 1000 },  // U
        _ => Rgba { red: 1000, green: 78, blue: 576, alpha: 1000 },
    }
}

/// The van der Waals radius, in picometres, of the element with atomic number
/// `z`; elements without one of their own get 175.
pub open spec fn cpk_radius(z: usize) -> u16 {
    match z {
        1 => 120,  // H
        2 => 140,  // He
        3 => 182,  // Li
        4 => 153,  // Be
        5 => 200,  // B
        6 => 170,  // C
        7 => 155,  // N
        8 => 152,  // O
        9 => 147,  // F
        10 => 154,  // Ne
        11 => 227,  // Na
        12 => 173,  // Mg
        15 => 180,  // P
        16 => 180,  // S
        17 => 175,  // Cl
        18 => 188,  // Ar
        19 => 275,  // K
        20 => 231,  // Ca
        22 => 160,  // Ti
        26 => 152,  // Fe
        35 => 185,  // Br
        37 => 303,  // Rb
        38 => 249,  // Sr
        53 => 198,  // I
        55 => 343,  // Cs
        56 => 268,  // Ba
        87 => 348,  // Fr
        88 => 283,  // Ra
        _ => 175,
    }
}

/// The colour an atom of the element with atomic number `atomic_number` is drawn in.
pub fn atom_color(atomic_number: usize) -> (r: Rgba)
    ensures
        r == cpk_color(atomic_number),
        r.red <= 1000 && r.green <= 1000 && r.blue <= 1000 && r.alpha == 1000,
{
    match atomic_number {
        1 => Rgba { red: 1000, green: 1000, blue: 1000, alpha: 1000 },  // H
        2 => Rgba { red: 851, green: 1000, blue: 1000, alpha: 1000 },  // He
        3 => Rgba { red: 800, green: 502, blue: 1000, alpha: 1000 },  // Li
        4 => Rgba { red: 761, green: 1000, blue: 0, alpha: 1000 },  // Be
        5 => Rgba { red: 1000, green: 710, blue: 710, alpha: 1000 },  // B
        6 => Rgba { red: 565, green: 565, blue: 565, alpha: 1000 },  // C
        7 => Rgba { red: 188, green: 314, blue: 973, alpha: 1000 },  // N
        8 => Rgba { red: 1000, green: 51, blue: 51, alpha: 1000 },  // O
        9 => Rgba { red: 565, green: 878, blue: 314, alpha: 1000 },  // F
        10 => Rgba { red: 702, green: 890, blue: 961, alpha: 1000 },  // Ne
        11 => Rgba { red: 671, green: 361, blue: 949, alpha: 1000 },  // Na
        12 => Rgba { red: 541, green: 1000, blue: 0, alpha: 1000 },  // Mg
        13 => Rgba { red: 749, green: 651, blue: 651, alpha: 1000 },  // Al
        14 => Rgba { red: 941, green: 784, blue: 627, alpha: 1000 },  // Si
        15 => Rgba { red: 1000, green: 502, blue: 0, alpha: 1000 },  // P
        16 => Rgba { red: 1000, green: 1000, blue: 188, alpha: 1000 },  // S
        17 => Rgba { red: 122, green: 941, blue: 122, alpha: 1000 },  // Cl
        18 => Rgba { red: 502, green: 820, blue: 890, alpha: 1000 },  // Ar
        19 => Rgba { red: 561, green: 251, blue: 831, alpha: 1000 },  // K
        20 => Rgba { red: 239, green: 1000, blue: 0, alpha: 1000 },  // Ca
        26 => Rgba { red: 878, green: 400, blue: 200, alpha: 1000 },  // Fe
        29 => Rgba { red: 784, green: 502, blue: 200, alpha: 1000 },  // Cu
        30 => Rgba { red: 490, green: 502, blue: 690, alpha: 1000 },  // Zn
        35 => Rgba { red: 651, green: 161, blue: 161, alpha: 1000 },  // Br
        47 => Rgba { red: 753, green: 753, blue: 753, alpha: 1000 },  // Ag
        53 => Rgba { red: 580, green: 0, blue: 580, alpha: 1000 },  // I
        79 => Rgba { red: 1000, green: 820, blue: 137, alpha: 1000 },  // Au
        82 => Rgba { red: 341, green: 349, blue: 380, alpha: 1000 },  // Pb
        92 => Rgba { red: 0, green: 561, blue: 1000, alpha: 1000 },  // U
        _ => Rgba { red: 1000, green: 78, blue: 576, alpha: 1000 },
    }
}

/// The van der Waals radius, in picometres, of an atom of the element with
/// atomic number `atomic_number`.
pub fn atom_radius_pm(atomic_number: usize) -> (r: u16)
    ensures
        r == cpk_radius(atomic_number),
        120 <= r <= 348,
{
    match atomic_number {
        1 => 120,  // H
        2 => 140,  // He
        3 => 182,  // Li
        4 => 153,  // Be
        5 => 200,  // B
        6 => 170,  // C
        7 => 155,  // N
        8 => 152,  // O
        9 => 147,  // F
        10 => 154,  // Ne
        11 => 227,  // Na
        12 => 173,  // Mg
        15 => 180,  // P
        16 => 180,  // S
        17 => 175,  // Cl
        18 => 188,  // Ar
        19 => 275,  // K
        20 => 231,  // Ca
        22 => 160,  // Ti
        26 => 152,  // Fe
        35 => 185,  // Br
        37 => 303,  // Rb
        38 => 249,  // Sr
        53 => 198,  // I
        55 => 343,  // Cs
        56 => 268,  // Ba
        87 => 348,  // Fr
        88 => 283,  // Ra
        _ => 175,
    }
}

} // verus!
