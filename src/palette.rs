//! Colour palettes and the cyclic indices that walk palettes and glyph tables.
use vstd::prelude::*;

verus! {

/// Declares crossterm's `style::Color` to the verifier: a plain enum of named
/// colours, RGB triples and ANSI values. The library only carries it from a
/// palette to the painted line, and compares it with `White` in contracts.
#[verifier::external_type_specification]
pub struct ExColor(crossterm::style::Color);

/// The index that follows `i` in a table of `len` entries, wrapping to 0.
pub open spec fn cycle_next(i: nat, len: nat) -> nat
    recommends
        len > 0,
{
    (i + 1) % len
}

/// Where an index that starts at `i` stands after `n` steps of `cycle_next`.
pub open spec fn cycle_steps(i: nat, n: nat, len: nat) -> nat
    decreases n,
{
    if n == 0 {
        i
    } else {
        cycle_next(cycle_steps(i, (n - 1) as nat, len), len)
    }
}

/// The colour painted for a palette index: the palette's entry, or white
/// where the palette has none.
pub open spec fn palette_color(
    colors: Seq<crossterm::style::Color>,
    i: nat,
) -> crossterm::style::Color {
    if i < colors.len() {
        colors[i as int]
    } else {
        crossterm::style::Color::White
    }
}

/// Advances a cyclic index by one step in a table of `len` entries.
pub fn next_index(i: usize, len: usize) -> (r: usize)
    requires
        len > 0,
    ensures
        r == cycle_next(i as nat, len as nat),
        r < len,
{
    let j = i % len;
    proof {
        vstd::arithmetic::div_mod::lemma_add_mod_noop(i as int, 1, len as int);
        vstd::arithmetic::div_mod::lemma_add_mod_noop(j as int, 1, len as int);
        vstd::arithmetic::div_mod::lemma_mod_twice(i as int, len as int);
    }
    (j + 1) % len
}

/// Looks up the colour painted for a palette index.
pub fn color_at(colors: &Vec<crossterm::style::Color>, i: usize) -> (r: crossterm::style::Color)
    ensures
        r == palette_color(colors@, i as nat),
{
    if i < colors.len() {
        colors[i]
    } else {
        crossterm::style::Color::White
    }
}

/// A cyclic index walks its table modulo the table's length: after `n` steps
/// from an index `i` inside the table it stands at `(i + n) mod len`.
pub proof fn lemma_cycle_steps(i: nat, n: nat, len: nat)
    requires
        len > 0,
        i < len,
    ensures
        cycle_steps(i, n, len) == (i + n) % len,
    decreases n,
{
    if n == 0 {
        vstd::arithmetic::div_mod::lemma_small_mod(i, len);
    } else {
        lemma_cycle_steps(i, (n - 1) as nat, len);
        let k = (i + n - 1) as int;
        vstd::arithmetic::div_mod::lemma_add_mod_noop(k, 1, len as int);
        vstd::arithmetic::div_mod::lemma_add_mod_noop(k % (len as int), 1, len as int);
        vstd::arithmetic::div_mod::lemma_mod_twice(k, len as int);
    }
}

} // verus!
