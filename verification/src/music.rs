//! Logic of the music activity: the time labels of the progress bar, the
//! loop button's cycle, and the song data it shows.
use vstd::prelude::*;

use crate::css_size::{lemma_decimal_reads_back, spec_all_digits, spec_digits_value};
use crate::text::{push_decimal, push_digit, spec_decimal, spec_digit};
use crate::time::Duration;

verus! {

/// `n` in decimal, padded with a zero to at least two digits.
pub open spec fn spec_two_digits(n: nat) -> Seq<char> {
    if n < 10 {
        seq!['0', spec_digit(n)]
    } else {
        spec_decimal(n)
    }
}

/// "mm:ss" for a number of seconds: whole minutes, and the seconds left
/// over, each with at least two digits.
pub open spec fn spec_minutes_seconds(secs: nat) -> Seq<char> {
    spec_two_digits(secs / 60) + seq![':'] + spec_two_digits(secs % 60)
}

/// Appends `n` with at least two digits.
fn push_two_digits(s: &mut String, n: u128)
    ensures
        final(s)@ == old(s)@ + spec_two_digits(n as nat),
{
    if n < 10 {
        push_digit(s, 0);
    }
    push_decimal(s, n);
    assert(final(s)@ =~= old(s)@ + spec_two_digits(n as nat));
}

/// Appends "mm:ss" for `secs` seconds.
fn push_minutes_seconds(s: &mut String, secs: u128)
    ensures
        final(s)@ == old(s)@ + spec_minutes_seconds(secs as nat),
{
    push_two_digits(s, secs / 60);
    let colon = ":";
    proof {
        reveal_strlit(":");
    }
    s.append(colon);
    push_two_digits(s, secs % 60);
    assert(final(s)@ =~= old(s)@ + spec_minutes_seconds(secs as nat));
}

/// The seconds of a song still to play: the whole seconds of its length
/// minus the whole seconds played, zero once it has been played through.
pub open spec fn spec_remaining_secs(current: Duration, total: Duration) -> nat {
    let cur = current.nanos / 1_000_000_000;
    let tot = total.nanos / 1_000_000_000;
    if tot >= cur {
        (tot - cur) as nat
    } else {
        0
    }
}

/// The labels beside the progress bar: the time played, "mm:ss", and the
/// time left, "-mm:ss", both in whole seconds.
pub fn music_time_labels(current: Duration, total: Duration) -> (r: (String, String))
    ensures
        r.0@ == spec_minutes_seconds((current.nanos / 1_000_000_000) as nat),
        r.1@ == seq!['-'] + spec_minutes_seconds(spec_remaining_secs(current, total)),
{
    let current_secs = current.as_secs();
    let total_secs = total.as_secs();
    let mut elapsed = String::new();
    push_minutes_seconds(&mut elapsed, current_secs);
    let remaining_secs = if total_secs >= current_secs {
        total_secs - current_secs
    } else {
        0
    };
    let minus = "-";
    proof {
        reveal_strlit("-");
    }
    let mut remaining = minus.to_string();
    push_minutes_seconds(&mut remaining, remaining_secs);
    (elapsed, remaining)
}

/// The time played and the time left add up to the song's length, in whole
/// seconds, while the song has not been played through.
pub proof fn lemma_time_labels_add_up(current: Duration, total: Duration)
    requires
        current.nanos <= total.nanos,
    ensures
        current.nanos / 1_000_000_000 + spec_remaining_secs(current, total) == total.nanos
            / 1_000_000_000,
{
    vstd::arithmetic::div_mod::lemma_div_is_ordered(
        current.nanos as int,
        total.nanos as int,
        1_000_000_000,
    );
}

/// A number in at least two digits reads back as the number; below 100 it
/// takes exactly two.
proof fn lemma_two_digits_reads_back(n: nat)
    ensures
        spec_all_digits(spec_two_digits(n)),
        spec_digits_value(spec_two_digits(n)) == n,
        spec_two_digits(n).len() >= 2,
        n < 100 ==> spec_two_digits(n).len() == 2,
{
    lemma_decimal_reads_back(n);
    if n < 10 {
        let t = spec_two_digits(n);
        assert(t.drop_last() =~= seq!['0']);
        assert(seq!['0'].drop_last() =~= Seq::<char>::empty());
        assert(spec_digits_value(Seq::<char>::empty()) == 0);
        assert(spec_digits_value(seq!['0']) == 0);
        assert(spec_decimal(n).drop_last() =~= Seq::<char>::empty());
        assert(spec_decimal(n).last() == t.last());
        assert(spec_digits_value(t) == n);
    } else {
        lemma_decimal_reads_back(n / 10);
        if n >= 100 {
            lemma_decimal_reads_back(n / 100);
            assert(spec_decimal(n / 10).len() >= 2);
        } else {
            assert(spec_decimal(n / 10).len() == 1);
        }
    }
}

/// A time label "mm:ss" reads back as the seconds it shows: minutes (at
/// least two digits) times sixty plus seconds (two digits, below sixty).
pub proof fn lemma_minutes_seconds_reads_back(secs: nat)
    ensures
        exists|m: Seq<char>, s: Seq<char>|
            #![trigger spec_digits_value(m), spec_digits_value(s)]
            spec_minutes_seconds(secs) == m + seq![':'] + s && spec_all_digits(m) && spec_all_digits(s)
                && m.len() >= 2 && s.len() == 2 && spec_digits_value(s) < 60 && spec_digits_value(m)
                * 60 + spec_digits_value(s) == secs,
{
    let m = spec_two_digits(secs / 60);
    let s = spec_two_digits(secs % 60);
    lemma_two_digits_reads_back(secs / 60);
    lemma_two_digits_reads_back(secs % 60);
    assert(spec_digits_value(m) * 60 + spec_digits_value(s) == secs);
}

/// How a player repeats.
#[derive(Clone, Copy, Debug, PartialEq, Eq, Structural)]
pub enum LoopStatus {
    NoLoop,
    Track,
    Playlist,
}

impl LoopStatus {
    pub open spec fn spec_next(self) -> LoopStatus {
        match self {
            LoopStatus::NoLoop => LoopStatus::Track,
            LoopStatus::Track => LoopStatus::Playlist,
            LoopStatus::Playlist => LoopStatus::NoLoop,
        }
    }

    /// The status that the loop button switches to: no repeat, then repeat
    /// the track, then repeat the playlist, then no repeat again.
    pub fn next(&self) -> (s: LoopStatus)
        ensures
            s == self.spec_next(),
    {
        match self {
            LoopStatus::NoLoop => LoopStatus::Track,
            LoopStatus::Track => LoopStatus::Playlist,
            LoopStatus::Playlist => LoopStatus::NoLoop,
        }
    }
}

/// Three presses of the loop button come back to where they started, and
/// fewer never do.
pub proof fn lemma_loop_cycle(s: LoopStatus)
    ensures
        s.spec_next().spec_next().spec_next() == s,
        s.spec_next() != s,
        s.spec_next().spec_next() != s,
{
}

/// A song's length as reported by a player in microseconds; a negative
/// length counts as zero.
pub fn length_from_micros(micros: i64) -> (d: Duration)
    ensures
        d.nanos == if micros > 0 { micros * 1000 } else { 0 },
{
    if micros > 0 {
        Duration::from_nanos(micros as u128 * 1000)
    } else {
        Duration::zero()
    }
}

/// The album art of a song: where it is, and its size where known.
#[derive(Clone, Debug, PartialEq, Eq)]
pub struct CurrentSongArtwork {
    pub url: String,
    pub width: Option<u64>,
    pub height: Option<u64>,
}

} // verus!
