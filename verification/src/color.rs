//! The dominant colour of a bitmap: the colour of most of its opaque,
//! non-white pixels.

use std::collections::HashMap;
use vstd::prelude::*;
use crate::text::{hex_byte, push_hex_byte};

verus! {

/// One pixel: red, green, blue and alpha.
#[derive(Clone, Copy, Debug, PartialEq, Eq, Structural)]
pub struct Pixel {
    pub r: u8,
    pub g: u8,
    pub b: u8,
    pub a: u8,
}

/// A pixel counts unless it is fully transparent or pure white.
pub open spec fn qualifies(p: Pixel) -> bool {
    p.a != 0 && !(p.r == 255 && p.g == 255 && p.b == 255)
}

/// The colour of a pixel as one number: its red, green and blue in 24 bits.
pub open spec fn rgb(p: Pixel) -> int {
    p.r as int * 65536 + p.g as int * 256 + p.b as int
}

/// Two pixels have the same `rgb` only where their red, green and blue agree.
pub proof fn lemma_rgb_injective(p: Pixel, q: Pixel)
    requires
        rgb(p) == rgb(q),
    ensures
        p.r == q.r,
        p.g == q.g,
        p.b == q.b,
{
}

/// How many pixels that count have the colour `color`.
pub open spec fn tally(pixels: Seq<Pixel>, color: int) -> nat
    decreases pixels.len(),
{
    if pixels.len() == 0 {
        0
    } else {
        tally(pixels.drop_last(), color) + if qualifies(pixels.last()) && rgb(pixels.last())
            == color {
            1nat
        } else {
            0nat
        }
    }
}

/// The pixel at `i` is the first pixel of the most frequent colour: it
/// counts, no colour is more frequent than its own, and every pixel that
/// counts before it has a colour that is less frequent.
pub open spec fn is_dominant_at(pixels: Seq<Pixel>, i: int) -> bool {
    &&& 0 <= i < pixels.len()
    &&& qualifies(pixels[i])
    &&& forall|j: int|
        0 <= j < pixels.len() && qualifies(pixels[j]) ==> tally(pixels, rgb(#[trigger] pixels[j]))
            <= tally(pixels, rgb(pixels[i]))
    &&& forall|j: int|
        0 <= j < i && qualifies(pixels[j]) ==> tally(pixels, rgb(#[trigger] pixels[j])) < tally(
            pixels,
            rgb(pixels[i]),
        )
}

/// At most one position is dominant.
pub proof fn lemma_dominant_unique(pixels: Seq<Pixel>, i: int, j: int)
    requires
        is_dominant_at(pixels, i),
        is_dominant_at(pixels, j),
    ensures
        i == j,
{
    if i < j {
        assert(tally(pixels, rgb(pixels[i])) < tally(pixels, rgb(pixels[j])));
        assert(tally(pixels, rgb(pixels[j])) <= tally(pixels, rgb(pixels[i])));
    } else if j < i {
        assert(tally(pixels, rgb(pixels[j])) < tally(pixels, rgb(pixels[i])));
        assert(tally(pixels, rgb(pixels[i])) <= tally(pixels, rgb(pixels[j])));
    }
}

/// A colour's tally never exceeds the number of pixels.
pub proof fn lemma_tally_bound(pixels: Seq<Pixel>, color: int)
    ensures
        tally(pixels, color) <= pixels.len(),
    decreases pixels.len(),
{
    if pixels.len() > 0 {
        lemma_tally_bound(pixels.drop_last(), color);
    }
}

/// A pixel that counts is tallied under its own colour.
pub proof fn lemma_tally_positive(pixels: Seq<Pixel>, i: int)
    requires
        0 <= i < pixels.len(),
        qualifies(pixels[i]),
    ensures
        tally(pixels, rgb(pixels[i])) > 0,
    decreases pixels.len(),
{
    if i < pixels.len() - 1 {
        lemma_tally_positive(pixels.drop_last(), i);
    }
}

/// The colour written as `#rrggbb`, in lower-case hexadecimal.
pub open spec fn hex_color(p: Pixel) -> Seq<char> {
    seq!['#'] + hex_byte(p.r) + hex_byte(p.g) + hex_byte(p.b)
}

/// The colour reported where a bitmap has no dominant colour: black.
pub open spec fn default_color() -> Seq<char> {
    seq!['#', '0', '0', '0', '0', '0', '0']
}

fn counts_toward(p: Pixel) -> (b: bool)
    ensures
        b == qualifies(p),
{
    p.a != 0 && !(p.r == 255 && p.g == 255 && p.b == 255)
}

fn color_key(p: Pixel) -> (k: u32)
    ensures
        k == rgb(p),
{
    p.r as u32 * 65536 + p.g as u32 * 256 + p.b as u32
}

/// The tallies of `pixels` are exactly what `tallies` holds.
spec fn holds_tallies(tallies: Map<u32, usize>, pixels: Seq<Pixel>) -> bool {
    &&& forall|k: u32| #[trigger] tallies.contains_key(k) <==> tally(pixels, k as int) > 0
    &&& forall|k: u32| #[trigger] tallies.contains_key(k) ==> tallies[k] == tally(pixels, k as int)
}

fn count_colors(pixels: &[Pixel]) -> (tallies: HashMap<u32, usize>)
    ensures
        holds_tallies(tallies@, pixels@),
{
    let mut tallies: HashMap<u32, usize> = HashMap::new();
    let mut i: usize = 0;
    assert(pixels@.take(0) =~= Seq::<Pixel>::empty());
    while i < pixels.len()
        invariant
            i <= pixels.len(),
            holds_tallies(tallies@, pixels@.take(i as int)),
        decreases pixels.len() - i,
    {
        let p = pixels[i];
        let ghost before = pixels@.take(i as int);
        let ghost after = pixels@.take(i + 1);
        assert(after.drop_last() =~= before);
        assert(after.last() == p);
        if counts_toward(p) {
            let k = color_key(p);
            let seen: usize = match tallies.get(&k) {
                Some(n) => *n,
                None => 0,
            };
            proof {
                lemma_tally_bound(before, k as int);
            }
            tallies.insert(k, seen + 1);
        }
        i += 1;
    }
    assert(pixels@.take(pixels.len() as int) =~= pixels@);
    tallies
}

/// The position of the first pixel of the most frequent colour among the
/// pixels that count; `None` where no pixel counts.
pub fn dominant_pixel(pixels: &[Pixel]) -> (r: Option<usize>)
    ensures
        match r {
            Some(i) => is_dominant_at(pixels@, i as int),
            None => forall|j: int| 0 <= j < pixels.len() ==> !qualifies(#[trigger] pixels@[j]),
        },
{
    let tallies = count_colors(pixels);
    let mut best: Option<usize> = None;
    let mut best_count: usize = 0;
    let mut i: usize = 0;
    while i < pixels.len()
        invariant
            i <= pixels.len(),
            holds_tallies(tallies@, pixels@),
            match best {
                Some(b) => {
                    &&& b < i
                    &&& qualifies(pixels@[b as int])
                    &&& best_count == tally(pixels@, rgb(pixels@[b as int]))
                    &&& forall|j: int|
                        0 <= j < i && qualifies(pixels@[j]) ==> tally(
                            pixels@,
                            rgb(#[trigger] pixels@[j]),
                        ) <= best_count
                    &&& forall|j: int|
                        0 <= j < b && qualifies(pixels@[j]) ==> tally(
                            pixels@,
                            rgb(#[trigger] pixels@[j]),
                        ) < best_count
                },
                None => {
                    &&& best_count == 0
                    &&& forall|j: int| 0 <= j < i ==> !qualifies(#[trigger] pixels@[j])
                },
            },
        decreases pixels.len() - i,
    {
        let p = pixels[i];
        if counts_toward(p) {
            let k = color_key(p);
            proof {
                lemma_tally_positive(pixels@, i as int);
            }
            let count: usize = match tallies.get(&k) {
                Some(n) => *n,
                None => 0,
            };
            assert(count == tally(pixels@, rgb(p)));
            if count > best_count {
                best = Some(i);
                best_count = count;
            }
        }
        i += 1;
    }
    best
}

fn hex_text(p: Pixel) -> (s: String)
    ensures
        s@ == hex_color(p),
{
    let mut s = String::new();
    s.push('#');
    push_hex_byte(&mut s, p.r);
    push_hex_byte(&mut s, p.g);
    push_hex_byte(&mut s, p.b);
    assert(s@ =~= hex_color(p));
    s
}

/// The colour reported where a bitmap has no dominant colour.
pub fn default_color_text() -> (color: String)
    ensures
        color@ == default_color(),
{
    proof {
        reveal_strlit("#000000");
        assert("#000000"@ =~= default_color());
    }
    "#000000".to_owned()
}

/// The dominant colour of a bitmap as `#rrggbb`: the most frequent colour
/// among the pixels that are neither fully transparent nor pure white, the
/// one met first where several are equally frequent. `None` where no pixel
/// counts.
pub fn get_dominant_color(pixels: &[Pixel]) -> (r: Option<String>)
    ensures
        match r {
            Some(s) => exists|i: int| is_dominant_at(pixels@, i) && s@ == hex_color(pixels@[i]),
            None => forall|j: int| 0 <= j < pixels.len() ==> !qualifies(#[trigger] pixels@[j]),
        },
{
    match dominant_pixel(pixels) {
        Some(i) => Some(hex_text(pixels[i])),
        None => None,
    }
}

/// The dominant colour of a bitmap as text, black where no pixel counts.
pub open spec fn dominant_or_default(pixels: Seq<Pixel>) -> Seq<char> {
    if exists|i: int| is_dominant_at(pixels, i) {
        hex_color(pixels[choose|i: int| is_dominant_at(pixels, i)])
    } else {
        default_color()
    }
}

/// The dominant colour of a bitmap as `#rrggbb`, `#000000` where no pixel
/// counts.
pub fn dominant_color_or_default(pixels: &[Pixel]) -> (color: String)
    ensures
        color@ == dominant_or_default(pixels@),
{
    match dominant_pixel(pixels) {
        Some(i) => {
            proof {
                let chosen = choose|j: int| is_dominant_at(pixels@, j);
                lemma_dominant_unique(pixels@, i as int, chosen);
            }
            hex_text(pixels[i])
        },
        None => default_color_text(),
    }
}

} // verus!
