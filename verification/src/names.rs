//! Provisional names: the keys by which a freshly requested source is found
//! again in the status snapshot before the service has given it an identity.

use crate::digits::{append_decimal, decimal_digits, lemma_decimal_injective};
use vstd::prelude::*;
use vstd::string::*;

verus! {

/// The provisional name with the number `n`.
pub open spec fn provisional_name(n: u64) -> Seq<char> {
    "rust_audio_"@ + decimal_digits(n as nat)
}

/// The number that a counter started at `start` hands out at its `i`-th
/// issue, counting from zero. Past the largest number it starts over.
pub open spec fn nth_number(start: u64, i: nat) -> u64 {
    ((start + i) % 0x1_0000_0000_0000_0000) as u64
}

/// Builds the provisional name with the number `n`.
pub fn name_for(n: u64) -> (name: String)
    ensures
        name@ == provisional_name(n),
{
    let mut name = String::from_str("rust_audio_");
    append_decimal(&mut name, n);
    name
}

/// The source of provisional names.
///
/// A process keeps one counter for its whole life and never resets it. Each
/// issue hands out the next number, so the names it hands out differ from one
/// another until 2^64 of them have been issued.
#[derive(Debug)]
pub struct NameCounter {
    next: u64,
}

impl NameCounter {
    /// The number that the next issued name will carry.
    pub closed spec fn upcoming(&self) -> u64 {
        self.next
    }

    /// A counter that has issued nothing yet.
    pub fn new() -> (counter: NameCounter)
        ensures
            counter.upcoming() == 0,
    {
        NameCounter { next: 0 }
    }

    /// Hands out the next provisional name.
    pub fn issue(&mut self) -> (name: String)
        ensures
            name@ == provisional_name(old(self).upcoming()),
            final(self).upcoming() == nth_number(old(self).upcoming(), 1),
    {
        let n: u64 = self.next;
        self.next = if n == u64::MAX {
            0
        } else {
            n + 1
        };
        name_for(n)
    }
}

/// Issuing once more moves a counter one step on: what was the number of
/// the `i`-th issue is followed by the number of the next.
pub proof fn lemma_nth_number_step(start: u64, i: nat)
    ensures
        nth_number(nth_number(start, i), 1) == nth_number(start, i + 1),
{
}

/// Different numbers give different provisional names.
pub proof fn lemma_names_differ(a: u64, b: u64)
    requires
        a != b,
    ensures
        provisional_name(a) != provisional_name(b),
{
    let prefix = "rust_audio_"@;
    let da = decimal_digits(a as nat);
    let db = decimal_digits(b as nat);
    if provisional_name(a) == provisional_name(b) {
        assert((prefix + da).subrange(prefix.len() as int, (prefix + da).len() as int) =~= da);
        assert((prefix + db).subrange(prefix.len() as int, (prefix + db).len() as int) =~= db);
        lemma_decimal_injective(a as nat, b as nat);
    }
}

/// The names that one counter issues in sequence are pairwise distinct: the
/// `i`-th and the `j`-th differ, as long as fewer than 2^64 issues lie
/// between them.
pub proof fn lemma_issued_names_distinct(start: u64, i: nat, j: nat)
    requires
        i < j,
        j - i < 0x1_0000_0000_0000_0000,
    ensures
        provisional_name(nth_number(start, i)) != provisional_name(nth_number(start, j)),
{
    lemma_names_differ(nth_number(start, i), nth_number(start, j));
}

} // verus!
