//! The label of a workspace: its index, its name and the icons of its
//! windows.

use crate::model::WorkspaceInfo;
use vstd::prelude::*;
use vstd::string::*;

verus! {

/// The character of a decimal digit.
pub open spec fn digit(d: int) -> char {
    if d == 0 {
        '0'
    } else if d == 1 {
        '1'
    } else if d == 2 {
        '2'
    } else if d == 3 {
        '3'
    } else if d == 4 {
        '4'
    } else if d == 5 {
        '5'
    } else if d == 6 {
        '6'
    } else if d == 7 {
        '7'
    } else if d == 8 {
        '8'
    } else {
        '9'
    }
}

/// A number in decimal, without leading zeros.
pub open spec fn decimal(n: nat) -> Seq<char>
    decreases n,
{
    if n < 10 {
        seq![digit(n as int)]
    } else {
        decimal(n / 10).push(digit((n % 10) as int))
    }
}

/// The label of a workspace: the index; then, where the name is not empty,
/// a space and the name; then, where there are icons, a colon, a space and
/// the icons.
pub open spec fn workspace_label(idx: u8, name: Seq<char>, icons: Seq<char>) -> Seq<char> {
    decimal(idx as nat) + (if name.len() > 0 {
        seq![' '] + name
    } else {
        Seq::empty()
    }) + (if icons.len() > 0 {
        seq![':', ' '] + icons
    } else {
        Seq::empty()
    })
}

/// The text of one decimal digit.
fn digit_text(d: u8) -> (text: &'static str)
    requires
        d < 10,
    ensures
        text@ == seq![digit(d as int)],
{
    proof {
        reveal_strlit("0");
        reveal_strlit("1");
        reveal_strlit("2");
        reveal_strlit("3");
        reveal_strlit("4");
        reveal_strlit("5");
        reveal_strlit("6");
        reveal_strlit("7");
        reveal_strlit("8");
        reveal_strlit("9");
    }
    let text = match d {
        0 => "0",
        1 => "1",
        2 => "2",
        3 => "3",
        4 => "4",
        5 => "5",
        6 => "6",
        7 => "7",
        8 => "8",
        _ => "9",
    };
    assert(text@ =~= seq![digit(d as int)]);
    text
}

/// The index in decimal.
pub fn index_text(idx: u8) -> (text: String)
    ensures
        text@ == decimal(idx as nat),
{
    let mut text = String::new();
    if idx >= 100 {
        text.append(digit_text(idx / 100));
    }
    if idx >= 10 {
        text.append(digit_text((idx / 10) % 10));
    }
    text.append(digit_text(idx % 10));
    proof {
        reveal_with_fuel(decimal, 3);
        assert(text@ =~= decimal(idx as nat));
    }
    text
}

/// The label shown for a workspace.
pub fn format_workspace_label(info: &WorkspaceInfo) -> (label: String)
    ensures
        label@ == workspace_label(info.idx, info.name@, info.icons@),
{
    proof {
        reveal_strlit(" ");
        reveal_strlit(": ");
    }
    let mut markup = index_text(info.idx);
    if !info.name.as_str().is_empty() {
        markup.append(" ");
        markup.append(info.name.as_str());
    }
    if !info.icons.as_str().is_empty() {
        markup.append(": ");
        markup.append(info.icons.as_str());
    }
    assert(markup@ =~= workspace_label(info.idx, info.name@, info.icons@)) by {
        assert(" "@ =~= seq![' ']);
        assert(": "@ =~= seq![':', ' ']);
    }
    markup
}

/// The four forms of a label: the index alone; the index and the name; the
/// index and the icons; the index, the name and the icons.
pub proof fn lemma_label_forms(idx: u8, name: Seq<char>, icons: Seq<char>)
    ensures
        name.len() == 0 && icons.len() == 0 ==> workspace_label(idx, name, icons) == decimal(
            idx as nat,
        ),
        name.len() > 0 && icons.len() == 0 ==> workspace_label(idx, name, icons) == decimal(
            idx as nat,
        ) + seq![' '] + name,
        name.len() == 0 && icons.len() > 0 ==> workspace_label(idx, name, icons) == decimal(
            idx as nat,
        ) + seq![':', ' '] + icons,
        name.len() > 0 && icons.len() > 0 ==> workspace_label(idx, name, icons) == decimal(
            idx as nat,
        ) + seq![' '] + name + seq![':', ' '] + icons,
{
    let index = decimal(idx as nat);
    let none: Seq<char> = Seq::empty();
    assert(index + none + none =~= index);
    assert(index + (seq![' '] + name) + none =~= index + seq![' '] + name);
    assert(index + none + (seq![':', ' '] + icons) =~= index + seq![':', ' '] + icons);
    assert(index + (seq![' '] + name) + (seq![':', ' '] + icons) =~= index + seq![' '] + name
        + seq![':', ' '] + icons);
}

} // verus!
