//! Rendering of the relay list for the status page.
//!
//! The page embeds one JSON-style descriptor `{"name":...,"isActive":...,
//! "id":...}` per relay, in id order. Labels come from the fixed startup
//! configuration and are embedded as they are. The whole body is assembled
//! character-for-character against a spec of the exact text.

use vstd::prelude::*;

use crate::relay::RelayBank;

verus! {

/// The digit character for `d` (0 to 9).
pub open spec fn digit_char(d: nat) -> char {
    ((d + 48) as u8) as char
}

/// Decimal text of `n`, most significant digit first, no sign, no leading
/// zeros (except for `n == 0` itself).
pub open spec fn dec_str(n: nat) -> Seq<char>
    decreases n,
{
    if n < 10 {
        seq![digit_char(n)]
    } else {
        dec_str(n / 10).push(digit_char(n % 10))
    }
}

/// The text `true` or `false`.
pub open spec fn bool_str(b: bool) -> Seq<char> {
    if b {
        "true"@
    } else {
        "false"@
    }
}

/// One relay descriptor as it appears on the page.
pub open spec fn json_entry(name: Seq<char>, active: bool, id: nat) -> Seq<char> {
    "{\"name\":\""@ + name + "\",\"isActive\":"@ + bool_str(active) + ",\"id\":"@ + dec_str(id)
        + "}"@
}

/// The comma-separated descriptors of all relays of `bank`, in id order.
pub open spec fn json_list_body(bank: Seq<(Seq<char>, bool)>) -> Seq<char>
    decreases bank.len(),
{
    if bank.len() == 0 {
        Seq::<char>::empty()
    } else {
        let entry = json_entry(bank.last().0, bank.last().1, (bank.len() - 1) as nat);
        if bank.len() == 1 {
            entry
        } else {
            json_list_body(bank.drop_last()) + ","@ + entry
        }
    }
}

/// The embedded relay list: a bracketed array of the descriptors.
pub open spec fn json_of_bank(bank: Seq<(Seq<char>, bool)>) -> Seq<char> {
    "["@ + json_list_body(bank) + "]"@
}

/// The one-character string for digit `d`.
fn digit_text(d: usize) -> (r: &'static str)
    requires
        d < 10,
    ensures
        r@ =~= seq![digit_char(d as nat)],
{
    proof {
        reveal_strlit("0");
        reveal_strlit("1");
        reveal_strlit("2");
        reveal_strlit("3");
        reveal_strlit("4");
        reveal_strlit("5");
        reveal_strlit("6");
        reveal_strlit("7");
        reveal_strlit("8");
        reveal_strlit("9");
    }
    match d {
        0 => "0",
        1 => "1",
        2 => "2",
        3 => "3",
        4 => "4",
        5 => "5",
        6 => "6",
        7 => "7",
        8 => "8",
        _ => "9",
    }
}

/// Decimal text of `n`.
pub fn dec_string(n: usize) -> (r: String)
    ensures
        r@ == dec_str(n as nat),
    decreases n,
{
    if n < 10 {
        String::from_str(digit_text(n))
    } else {
        let mut s = dec_string(n / 10);
        s.append(digit_text(n % 10));
        proof {
            assert(s@ =~= dec_str((n / 10) as nat).push(digit_char((n % 10) as nat)));
        }
        s
    }
}

/// Render the relay list of `bank` exactly as [`json_of_bank`] states it.
pub fn render_relays_json(bank: &RelayBank) -> (r: String)
    ensures
        r@ == json_of_bank(bank@),
{
    let snap = bank.snapshot();
    let mut out = String::from_str("[");
    let mut i: usize = 0;
    while i < snap.len()
        invariant
            i <= snap@.len(),
            snap@.len() == bank@.len(),
            forall|j: int|
                0 <= j < bank@.len() ==> (#[trigger] snap@[j]).name@ == bank@[j].0
                    && snap@[j].is_active == bank@[j].1 && snap@[j].id == j,
            out@ == "["@ + json_list_body(bank@.take(i as int)),
        decreases snap@.len() - i,
    {
        if i > 0 {
            out.append(",");
        }
        out.append("{\"name\":\"");
        out.append(snap[i].name.as_str());
        out.append("\",\"isActive\":");
        if snap[i].is_active {
            out.append("true");
        } else {
            out.append("false");
        }
        out.append(",\"id\":");
        let ds = dec_string(snap[i].id);
        out.append(ds.as_str());
        out.append("}");
        proof {
            let pre = bank@.take(i as int);
            let cur = bank@.take(i + 1);
            assert(cur.drop_last() =~= pre);
            assert(cur.last() == bank@[i as int]);
            let entry = json_entry(bank@[i as int].0, bank@[i as int].1, i as nat);
            if i == 0 {
                assert(out@ =~= "["@ + json_list_body(cur));
            } else {
                assert(json_list_body(cur) == json_list_body(pre) + ","@ + entry);
                assert(out@ =~= "["@ + json_list_body(cur));
            }
        }
        i = i + 1;
    }
    out.append("]");
    proof {
        assert(bank@.take(bank@.len() as int) =~= bank@);
    }
    out
}

/// Render the whole page body: the static document around the embedded
/// relay list. The caller splits its template once at the placeholder and
/// hands over the text before and after it.
pub fn render_page(prefix: &str, bank: &RelayBank, suffix: &str) -> (r: String)
    ensures
        r@ == prefix@ + json_of_bank(bank@) + suffix@,
{
    let mut out = String::from_str(prefix);
    let json = render_relays_json(bank);
    out.append(json.as_str());
    out.append(suffix);
    out
}

} // verus!
