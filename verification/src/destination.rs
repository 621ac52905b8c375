//! The identity of a destination file: the second in which its session was
//! handled and a suffix that tells apart the files of one second.

use vstd::prelude::*;
use vstd::string::StringExecFns;

use crate::decimal::{all_digits, decimal, is_digit, lemma_decimal_injective, lemma_decimal_shape, push_decimal};

verus! {

/// The extension that every destination file carries.
pub open spec fn extension() -> Seq<char> {
    seq!['.', 's', 'p', 'l']
}

/// The name of the file for `timestamp` and `suffix`: the timestamp's numeral
/// and the extension, with a hyphen and the suffix's numeral between them
/// unless the suffix is zero.
pub open spec fn file_name(timestamp: nat, suffix: nat) -> Seq<char> {
    if suffix == 0 {
        decimal(timestamp) + extension()
    } else {
        decimal(timestamp) + seq!['-'] + decimal(suffix) + extension()
    }
}

/// What follows the timestamp's numeral in a file name.
pub open spec fn name_tail(suffix: nat) -> Seq<char> {
    if suffix == 0 {
        extension()
    } else {
        seq!['-'] + decimal(suffix) + extension()
    }
}

/// Two strings of digits, each followed by something that starts with
/// another character, split one text at the same place.
proof fn lemma_digit_prefix_unique(a: Seq<char>, x: Seq<char>, b: Seq<char>, y: Seq<char>)
    requires
        all_digits(a),
        all_digits(b),
        x.len() > 0,
        y.len() > 0,
        !is_digit(x[0]),
        !is_digit(y[0]),
        a + x == b + y,
    ensures
        a == b,
        x == y,
{
    let whole = a + x;
    if a.len() < b.len() {
        assert(whole[a.len() as int] == x[0]);
        assert((b + y)[a.len() as int] == b[a.len() as int]);
        assert(false);
    }
    if b.len() < a.len() {
        assert((b + y)[b.len() as int] == y[0]);
        assert(whole[b.len() as int] == a[b.len() as int]);
        assert(false);
    }
    assert forall|i: int| 0 <= i < a.len() implies a[i] == b[i] by {
        assert(whole[i] == a[i]);
        assert((b + y)[i] == b[i]);
    }
    assert(a =~= b);
    assert(x.len() == y.len()) by {
        assert(whole.len() == a.len() + x.len());
        assert((b + y).len() == b.len() + y.len());
    }
    assert forall|i: int| 0 <= i < x.len() implies x[i] == y[i] by {
        assert(whole[a.len() + i] == x[i]);
        assert((b + y)[b.len() + i] == y[i]);
    }
    assert(x =~= y);
}

/// A file name names one timestamp and one suffix only.
pub proof fn lemma_file_name_injective(t1: nat, s1: nat, t2: nat, s2: nat)
    requires
        file_name(t1, s1) == file_name(t2, s2),
    ensures
        t1 == t2,
        s1 == s2,
{
    lemma_decimal_shape(t1);
    lemma_decimal_shape(t2);
    lemma_decimal_shape(s1);
    lemma_decimal_shape(s2);
    let x = name_tail(s1);
    let y = name_tail(s2);
    assert(file_name(t1, s1) =~= decimal(t1) + x);
    assert(file_name(t2, s2) =~= decimal(t2) + y);
    assert(x[0] == (if s1 == 0 { '.' } else { '-' }));
    assert(y[0] == (if s2 == 0 { '.' } else { '-' }));
    lemma_digit_prefix_unique(decimal(t1), x, decimal(t2), y);
    lemma_decimal_injective(t1, t2);
    if s1 != 0 && s2 != 0 {
        let a = decimal(s1);
        let b = decimal(s2);
        assert(x.len() == 1 + a.len() + 4);
        assert(y.len() == 1 + b.len() + 4);
        assert forall|i: int| 0 <= i < a.len() implies a[i] == b[i] by {
            assert(x[1 + i] == a[i]);
            assert(y[1 + i] == b[i]);
        }
        assert(a =~= b);
        lemma_decimal_injective(s1, s2);
    }
}

/// A destination file's identity.
#[derive(Clone, Copy, Debug, PartialEq, Eq, Hash, Structural)]
pub struct Destination {
    /// Seconds since the epoch at which the session was handled.
    pub timestamp: u64,
    /// Zero for the first file of that second, counting up with each collision.
    pub suffix: u64,
}

impl Destination {
    /// The file name that stands for this identity.
    pub open spec fn name(self) -> Seq<char> {
        file_name(self.timestamp as nat, self.suffix as nat)
    }

    /// The first candidate of a second: no suffix.
    pub fn first(timestamp: u64) -> (d: Destination)
        ensures
            d == (Destination { timestamp, suffix: 0 }),
    {
        Destination { timestamp, suffix: 0 }
    }

    /// The candidate to try after this one collided, or `None` once the
    /// suffixes are used up.
    pub fn next(&self) -> (r: Option<Destination>)
        ensures
            self.suffix < u64::MAX ==> r == Some(
                Destination { timestamp: self.timestamp, suffix: (self.suffix + 1) as u64 },
            ),
            self.suffix == u64::MAX ==> r is None,
    {
        if self.suffix < u64::MAX {
            Some(Destination { timestamp: self.timestamp, suffix: self.suffix + 1 })
        } else {
            None
        }
    }

    /// Renders the file name.
    pub fn file_name(&self) -> (s: String)
        ensures
            s@ == self.name(),
    {
        proof {
            reveal_strlit("-");
            reveal_strlit(".spl");
        }
        let mut s = String::new();
        push_decimal(&mut s, self.timestamp);
        if self.suffix != 0 {
            s.append("-");
            push_decimal(&mut s, self.suffix);
        }
        s.append(".spl");
        assert(".spl"@ =~= extension());
        assert("-"@ =~= seq!['-']);
        assert(s@ =~= self.name());
        s
    }
}

/// Distinct identities have distinct file names.
pub proof fn lemma_names_distinct(a: Destination, b: Destination)
    requires
        a != b,
    ensures
        a.name() != b.name(),
{
    if a.name() == b.name() {
        lemma_file_name_injective(
            a.timestamp as nat,
            a.suffix as nat,
            b.timestamp as nat,
            b.suffix as nat,
        );
    }
}

} // verus!
