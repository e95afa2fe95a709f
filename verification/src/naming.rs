//! The names that a renamed file can get: the date, a counter where the
//! plain name is taken, and the extension of the original in lower case.

use vstd::prelude::*;
use crate::decimal::decimal;
use crate::decimal::decimal_string;
use crate::decimal::lemma_decimal_injective;

verus! {

/// What `str::to_lowercase` makes of `text`: its lower-case equivalent by
/// the rules of Unicode.
pub uninterp spec fn lowercase_of(text: Seq<char>) -> Seq<char>;

/// Calls `str::to_lowercase`. Trusted: the result depends on the text
/// alone.
#[verifier::external_body]
fn to_lowercase(text: &str) -> (r: String)
    ensures
        r@ == lowercase_of(text@),
{
    text.to_lowercase()
}

/// The index of the last `.` in `name`, or -1 where it holds none.
pub open spec fn last_dot(name: Seq<char>) -> int
    decreases name.len(),
{
    if name.len() == 0 {
        -1
    } else if name.last() == '.' {
        name.len() - 1
    } else {
        last_dot(name.drop_last())
    }
}

/// The extension of a file name: what follows its last `.`, unless that is
/// the first character of the name. Empty where the name has no extension.
pub open spec fn extension_of(name: Seq<char>) -> Seq<char> {
    let dot = last_dot(name);
    if dot > 0 {
        name.subrange(dot + 1, name.len() as int)
    } else {
        Seq::empty()
    }
}

/// The extension that a renamed file keeps: that of its name, in lower
/// case.
pub open spec fn lowered_extension(name: Seq<char>) -> Seq<char> {
    lowercase_of(extension_of(name))
}

/// The `counter`-th name that is tried for a file: `date.extension` first,
/// then `date-1.extension`, `date-2.extension` and so on.
pub open spec fn candidate_name(date: Seq<char>, extension: Seq<char>, counter: nat) -> Seq<char> {
    if counter == 0 {
        date + seq!['.'] + extension
    } else {
        date + seq!['-'] + decimal(counter) + seq!['.'] + extension
    }
}

/// Whether a file name marks a hidden file: it begins with `.`.
pub open spec fn hidden(name: Seq<char>) -> bool {
    name.len() > 0 && name[0] == '.'
}

/// Names tried under different counters differ: no file is offered the
/// same name twice.
pub proof fn lemma_candidates_differ(date: Seq<char>, extension: Seq<char>, a: nat, b: nat)
    requires
        a != b,
    ensures
        candidate_name(date, extension, a) != candidate_name(date, extension, b),
{
    let x = candidate_name(date, extension, a);
    let y = candidate_name(date, extension, b);
    let at = date.len() as int;
    if a == 0 {
        assert(x[at] == '.');
        assert(y[at] == '-');
    } else if b == 0 {
        assert(x[at] == '-');
        assert(y[at] == '.');
    } else if x == y {
        let m = decimal(a);
        let n = decimal(b);
        assert(x.len() == date.len() + 1 + m.len() + 1 + extension.len());
        assert(y.len() == date.len() + 1 + n.len() + 1 + extension.len());
        assert(m.len() == n.len());
        assert(m =~= x.subrange(at + 1, at + 1 + m.len()));
        assert(n =~= y.subrange(at + 1, at + 1 + n.len()));
        lemma_decimal_injective(a, b);
    }
}

/// Tells whether a file name marks a hidden file.
pub fn is_hidden(name: &str) -> (r: bool)
    ensures
        r == hidden(name@),
{
    name.unicode_len() > 0 && name.get_char(0) == '.'
}

/// Takes the extension off a file name and puts it in lower case.
pub fn lower_extension(name: &str) -> (r: String)
    ensures
        r@ == lowered_extension(name@),
{
    let len = name.unicode_len();
    let mut end = len;
    assert(name@.take(len as int) =~= name@);
    while end > 0 && name.get_char(end - 1) != '.'
        invariant
            end <= len,
            len == name@.len(),
            last_dot(name@) == last_dot(name@.take(end as int)),
        decreases end,
    {
        proof {
            let head = name@.take(end as int);
            assert(head.last() == name@[end - 1]);
            assert(head.drop_last() =~= name@.take(end - 1));
        }
        end = end - 1;
    }
    proof {
        if end > 0 {
            assert(name@.take(end as int).last() == name@[end - 1]);
        }
        assert(last_dot(name@) == end - 1);
    }
    if end > 1 {
        to_lowercase(name.substring_char(end, len))
    } else {
        let r = to_lowercase("");
        proof {
            reveal_strlit("");
            assert(""@ =~= Seq::<char>::empty());
        }
        r
    }
}

/// Writes the `counter`-th name that is tried for a file.
pub fn candidate(date: &str, extension: &str, counter: u64) -> (r: String)
    ensures
        r@ == candidate_name(date@, extension@, counter as nat),
{
    proof {
        reveal_strlit("-");
        reveal_strlit(".");
    }
    let mut name = String::from_str(date);
    if counter > 0 {
        name.append("-");
        let digits = decimal_string(counter);
        name.append(digits.as_str());
    }
    name.append(".");
    name.append(extension);
    assert(name@ =~= candidate_name(date@, extension@, counter as nat));
    name
}

} // verus!
