//! The text that shows the counters of a scene.

use crate::stats::SceneStats;
use vstd::prelude::*;
use vstd::string::StringExecFns;

verus! {

/// The character of a decimal digit.
pub open spec fn digit_char(digit: nat) -> char {
    ((48 + digit) as u8) as char
}

/// The decimal digits of a number, without leading zeros.
pub open spec fn digits(value: nat) -> Seq<char>
    decreases value,
{
    if value < 10 {
        seq![digit_char(value)]
    } else {
        digits(value / 10).push(digit_char(value % 10))
    }
}

/// The decimal digits of a number in groups of three from the right, with
/// a comma between two groups.
pub open spec fn grouped(value: nat) -> Seq<char>
    decreases value,
{
    if value < 1000 {
        digits(value)
    } else {
        grouped(value / 1000).push(',').push(digit_char(value % 1000 / 100)).push(
            digit_char(value % 100 / 10),
        ).push(digit_char(value % 10))
    }
}

/// `String::push`, which puts one character at the end of a string.
/// Trusted: the string afterwards is the string before and the character.
#[verifier::external_body]
fn push_char(text: &mut String, c: char)
    ensures
        final(text)@ == old(text)@.push(c),
{
    text.push(c)
}

/// Puts a decimal digit at the end of a text.
fn push_digit(text: &mut String, digit: u64)
    requires
        digit < 10,
    ensures
        final(text)@ == old(text)@.push(digit_char(digit as nat)),
{
    let code: u8 = 48 + digit as u8;
    push_char(text, code as char);
}

/// Puts the decimal digits of a number at the end of a text.
fn push_digits(text: &mut String, value: u64)
    ensures
        final(text)@ == old(text)@ + digits(value as nat),
    decreases value,
{
    if value < 10 {
        push_digit(text, value);
        assert(old(text)@.push(digit_char(value as nat)) =~= old(text)@ + digits(value as nat));
    } else {
        push_digits(text, value / 10);
        push_digit(text, value % 10);
        assert((old(text)@ + digits((value / 10) as nat)).push(digit_char((value % 10) as nat))
            =~= old(text)@ + digits(value as nat));
    }
}

/// Puts the grouped digits of a number at the end of a text.
fn push_grouped(text: &mut String, value: u64)
    ensures
        final(text)@ == old(text)@ + grouped(value as nat),
    decreases value,
{
    if value < 1000 {
        push_digits(text, value);
    } else {
        push_grouped(text, value / 1000);
        push_char(text, ',');
        push_digit(text, value % 1000 / 100);
        push_digit(text, value % 100 / 10);
        push_digit(text, value % 10);
        assert((old(text)@ + grouped((value / 1000) as nat)).push(',').push(
            digit_char((value % 1000 / 100) as nat),
        ).push(digit_char((value % 100 / 10) as nat)).push(digit_char((value % 10) as nat))
            =~= old(text)@ + grouped(value as nat));
    }
}

/// A number as text, its digits in groups of three: 1234567 reads
/// `1,234,567`.
pub fn format_large_number(value: u32) -> (text: String)
    ensures
        text@ == grouped(value as nat),
{
    let mut text = String::new();
    push_grouped(&mut text, value as u64);
    assert(Seq::<char>::empty() + grouped(value as nat) =~= grouped(value as nat));
    text
}

/// The text of the counters of a scene: one line for each counter, then the
/// number of everything counted, then the number of all entities.
pub open spec fn spec_stats_text(stats: SceneStats, total_entities: u32) -> Seq<char> {
    "Cars: "@ + grouped(stats.cars_spawned as nat) + "\nLow Density: "@ + grouped(
        stats.low_density_buildings as nat,
    ) + "\nMedium Density: "@ + grouped(stats.medium_density_buildings as nat)
        + "\nSkyscrapers: "@ + grouped(stats.skyscrapers as nat) + "\nRoad Segments: "@ + grouped(
        stats.road_segments as nat,
    ) + "\nTrees: "@ + grouped(stats.trees as nat) + "\nTotal spawned mesh: "@ + grouped(
        stats.spec_total() as nat,
    ) + "\nTotal Entities: "@ + grouped(total_entities as nat)
}

/// The text of the counters of a scene.
pub fn stats_text(stats: &SceneStats, total_entities: u32) -> (text: String)
    ensures
        text@ == spec_stats_text(*stats, total_entities),
{
    let mut text = String::new();
    text.append("Cars: ");
    push_grouped(&mut text, stats.cars_spawned as u64);
    text.append("\nLow Density: ");
    push_grouped(&mut text, stats.low_density_buildings as u64);
    text.append("\nMedium Density: ");
    push_grouped(&mut text, stats.medium_density_buildings as u64);
    text.append("\nSkyscrapers: ");
    push_grouped(&mut text, stats.skyscrapers as u64);
    text.append("\nRoad Segments: ");
    push_grouped(&mut text, stats.road_segments as u64);
    text.append("\nTrees: ");
    push_grouped(&mut text, stats.trees as u64);
    text.append("\nTotal spawned mesh: ");
    push_grouped(&mut text, stats.total());
    text.append("\nTotal Entities: ");
    push_grouped(&mut text, total_entities as u64);
    assert(text@ =~= spec_stats_text(*stats, total_entities));
    text
}

} // verus!
