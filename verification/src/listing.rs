//! Numbered listings, as the chat shows its known peers and joined groups.

use vstd::prelude::*;

verus! {

/// The decimal digit for `d`.
pub open spec fn digit(d: nat) -> char {
    "0123456789"@[d as int]
}

/// The decimal writing of `n`, without leading zeros.
pub open spec fn decimal(n: nat) -> Seq<char>
    decreases n,
{
    if n < 10 {
        seq![digit(n)]
    } else {
        decimal(n / 10).push(digit(n % 10))
    }
}

/// The listing line for the item at 1-based position `position`: the
/// position in square brackets, a space, and the item's text.
pub open spec fn numbered(position: nat, item: Seq<char>) -> Seq<char> {
    "["@ + decimal(position) + "] "@ + item
}

/// Writes `n` in decimal.
pub fn decimal_text(n: usize) -> (text: String)
    ensures
        text@ == decimal(n as nat),
    decreases n,
{
    let digits = "0123456789";
    proof {
        reveal_strlit("0123456789");
    }
    if n < 10 {
        digits.substring_char(n, n + 1).to_owned()
    } else {
        let mut text = decimal_text(n / 10);
        let d = n % 10;
        text.append(digits.substring_char(d, d + 1));
        proof {
            assert(digits@.subrange(d as int, d + 1) =~= seq![digit(d as nat)]);
        }
        text
    }
}

/// Numbers the items from one, one line per item in the order given.
pub fn number_items(items: &Vec<String>) -> (lines: Vec<String>)
    ensures
        lines@.len() == items@.len(),
        forall|i: int| 0 <= i < items@.len() ==> #[trigger] lines@[i]@ == numbered((i + 1) as nat, items@[i]@),
{
    let mut lines: Vec<String> = Vec::new();
    let mut i: usize = 0;
    while i < items.len()
        invariant
            i <= items@.len(),
            lines@.len() == i,
            forall|k: int| 0 <= k < i ==> #[trigger] lines@[k]@ == numbered((k + 1) as nat, items@[k]@),
        decreases items@.len() - i,
    {
        let mut line = String::from_str("[");
        let position = decimal_text(i + 1);
        line.append(position.as_str());
        line.append("] ");
        line.append(items[i].as_str());
        lines.push(line);
        i = i + 1;
    }
    lines
}

} // verus!
