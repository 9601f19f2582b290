//! The fixed names of the wire format, and the order in which they are
//! written.

use vstd::prelude::*;
use crate::strings::sig;
use crate::wire::{distinct_keys, Members};

verus! {

/// The place of a key in the order in which members are written. Keys that
/// never share an object may share a place; a string that is no key of the
/// format has the last one.
pub open spec fn key_rank(key: Seq<char>) -> int {
    if key == "text"@ {
        0
    } else if key == "translate"@ {
        0
    } else if key == "score"@ {
        0
    } else if key == "selector"@ {
        0
    } else if key == "keybind"@ {
        0
    } else if key == "action"@ {
        0
    } else if key == "with"@ {
        1
    } else if key == "separator"@ {
        1
    } else if key == "name"@ {
        1
    } else if key == "objective"@ {
        2
    } else if key == "type"@ {
        3
    } else if key == "id"@ {
        4
    } else if key == "Count"@ {
        5
    } else if key == "tag"@ {
        6
    } else if key == "value"@ {
        7
    } else if key == "contents"@ {
        8
    } else if key == "bold"@ {
        10
    } else if key == "italic"@ {
        11
    } else if key == "underlined"@ {
        12
    } else if key == "strikethrough"@ {
        13
    } else if key == "obfuscated"@ {
        14
    } else if key == "color"@ {
        15
    } else if key == "insertion"@ {
        16
    } else if key == "font"@ {
        17
    } else if key == "clickEvent"@ {
        18
    } else if key == "hoverEvent"@ {
        19
    } else if key == "extra"@ {
        20
    } else {
        21
    }
}

/// The fingerprint of every key of the format.
pub proof fn lemma_key_sigs()
    ensures
        sig("text"@) == (4nat, 't', 'e', ' '),
        sig("translate"@) == (9nat, 't', 'r', 'l'),
        sig("score"@) == (5nat, 's', 'c', ' '),
        sig("selector"@) == (8nat, 's', 'e', 't'),
        sig("keybind"@) == (7nat, 'k', 'e', 'n'),
        sig("action"@) == (6nat, 'a', 'c', 'n'),
        sig("with"@) == (4nat, 'w', 'i', ' '),
        sig("separator"@) == (9nat, 's', 'e', 'a'),
        sig("name"@) == (4nat, 'n', 'a', ' '),
        sig("objective"@) == (9nat, 'o', 'b', 't'),
        sig("type"@) == (4nat, 't', 'y', ' '),
        sig("id"@) == (2nat, 'i', 'd', ' '),
        sig("Count"@) == (5nat, 'C', 'o', ' '),
        sig("tag"@) == (3nat, 't', 'a', ' '),
        sig("value"@) == (5nat, 'v', 'a', ' '),
        sig("contents"@) == (8nat, 'c', 'o', 'n'),
        sig("bold"@) == (4nat, 'b', 'o', ' '),
        sig("italic"@) == (6nat, 'i', 't', 'c'),
        sig("underlined"@) == (10nat, 'u', 'n', 'l'),
        sig("strikethrough"@) == (13nat, 's', 't', 'e'),
        sig("obfuscated"@) == (10nat, 'o', 'b', 'c'),
        sig("color"@) == (5nat, 'c', 'o', ' '),
        sig("insertion"@) == (9nat, 'i', 'n', 't'),
        sig("font"@) == (4nat, 'f', 'o', ' '),
        sig("clickEvent"@) == (10nat, 'c', 'l', 'E'),
        sig("hoverEvent"@) == (10nat, 'h', 'o', 'E'),
        sig("extra"@) == (5nat, 'e', 'x', ' '),
{
    reveal_strlit("text");
    reveal_strlit("translate");
    reveal_strlit("score");
    reveal_strlit("selector");
    reveal_strlit("keybind");
    reveal_strlit("action");
    reveal_strlit("with");
    reveal_strlit("separator");
    reveal_strlit("name");
    reveal_strlit("objective");
    reveal_strlit("type");
    reveal_strlit("id");
    reveal_strlit("Count");
    reveal_strlit("tag");
    reveal_strlit("value");
    reveal_strlit("contents");
    reveal_strlit("bold");
    reveal_strlit("italic");
    reveal_strlit("underlined");
    reveal_strlit("strikethrough");
    reveal_strlit("obfuscated");
    reveal_strlit("color");
    reveal_strlit("insertion");
    reveal_strlit("font");
    reveal_strlit("clickEvent");
    reveal_strlit("hoverEvent");
    reveal_strlit("extra");
}

/// The fingerprint and the place of every key of the format.
pub proof fn lemma_keys()
    ensures
        sig("text"@) == (4nat, 't', 'e', ' '),
        sig("translate"@) == (9nat, 't', 'r', 'l'),
        sig("score"@) == (5nat, 's', 'c', ' '),
        sig("selector"@) == (8nat, 's', 'e', 't'),
        sig("keybind"@) == (7nat, 'k', 'e', 'n'),
        sig("action"@) == (6nat, 'a', 'c', 'n'),
        sig("with"@) == (4nat, 'w', 'i', ' '),
        sig("separator"@) == (9nat, 's', 'e', 'a'),
        sig("name"@) == (4nat, 'n', 'a', ' '),
        sig("objective"@) == (9nat, 'o', 'b', 't'),
        sig("type"@) == (4nat, 't', 'y', ' '),
        sig("id"@) == (2nat, 'i', 'd', ' '),
        sig("Count"@) == (5nat, 'C', 'o', ' '),
        sig("tag"@) == (3nat, 't', 'a', ' '),
        sig("value"@) == (5nat, 'v', 'a', ' '),
        sig("contents"@) == (8nat, 'c', 'o', 'n'),
        sig("bold"@) == (4nat, 'b', 'o', ' '),
        sig("italic"@) == (6nat, 'i', 't', 'c'),
        sig("underlined"@) == (10nat, 'u', 'n', 'l'),
        sig("strikethrough"@) == (13nat, 's', 't', 'e'),
        sig("obfuscated"@) == (10nat, 'o', 'b', 'c'),
        sig("color"@) == (5nat, 'c', 'o', ' '),
        sig("insertion"@) == (9nat, 'i', 'n', 't'),
        sig("font"@) == (4nat, 'f', 'o', ' '),
        sig("clickEvent"@) == (10nat, 'c', 'l', 'E'),
        sig("hoverEvent"@) == (10nat, 'h', 'o', 'E'),
        sig("extra"@) == (5nat, 'e', 'x', ' '),
        key_rank("text"@) == 0,
        key_rank("translate"@) == 0,
        key_rank("score"@) == 0,
        key_rank("selector"@) == 0,
        key_rank("keybind"@) == 0,
        key_rank("action"@) == 0,
        key_rank("with"@) == 1,
        key_rank("separator"@) == 1,
        key_rank("name"@) == 1,
        key_rank("objective"@) == 2,
        key_rank("type"@) == 3,
        key_rank("id"@) == 4,
        key_rank("Count"@) == 5,
        key_rank("tag"@) == 6,
        key_rank("value"@) == 7,
        key_rank("contents"@) == 8,
        key_rank("bold"@) == 10,
        key_rank("italic"@) == 11,
        key_rank("underlined"@) == 12,
        key_rank("strikethrough"@) == 13,
        key_rank("obfuscated"@) == 14,
        key_rank("color"@) == 15,
        key_rank("insertion"@) == 16,
        key_rank("font"@) == 17,
        key_rank("clickEvent"@) == 18,
        key_rank("hoverEvent"@) == 19,
        key_rank("extra"@) == 20,
{
    lemma_key_sigs();
}

/// The fingerprint of every action token of the format.
pub proof fn lemma_action_sigs()
    ensures
        sig("show_text"@) == (9nat, 's', 'h', 't'),
        sig("show_item"@) == (9nat, 's', 'h', 'i'),
        sig("show_entity"@) == (11nat, 's', 'h', 'e'),
        sig("open_url"@) == (8nat, 'o', 'p', 'u'),
        sig("run_command"@) == (11nat, 'r', 'u', 'o'),
        sig("suggest_command"@) == (15nat, 's', 'u', 's'),
        sig("change_page"@) == (11nat, 'c', 'h', 'e'),
        sig("copy_to_clipboard"@) == (17nat, 'c', 'o', 't'),
{
    reveal_strlit("show_text");
    reveal_strlit("show_item");
    reveal_strlit("show_entity");
    reveal_strlit("open_url");
    reveal_strlit("run_command");
    reveal_strlit("suggest_command");
    reveal_strlit("change_page");
    reveal_strlit("copy_to_clipboard");
}

/// Whether the members come in rising order of their keys' places, all of
/// them from `low` up to but not including `high`.
pub open spec fn ranked(members: Members, low: int, high: int) -> bool {
    &&& forall|i: int| 0 <= i < members.len() ==> low <= key_rank((#[trigger] members[i]).0) < high
    &&& forall|i: int, j: int|
        0 <= i < j < members.len() ==> key_rank((#[trigger] members[i]).0) < key_rank(
            (#[trigger] members[j]).0,
        )
}

/// Members in rising order have no key twice.
pub proof fn lemma_ranked_distinct(members: Members, low: int, high: int)
    requires
        ranked(members, low, high),
    ensures
        distinct_keys(members),
{
}

/// Two runs in rising order, the second above the first, make one such run.
pub proof fn lemma_ranked_concat(a: Members, b: Members, low: int, mid: int, high: int)
    requires
        low <= mid <= high,
        ranked(a, low, mid),
        ranked(b, mid, high),
    ensures
        ranked(a + b, low, high),
{
    let both = a + b;
    assert forall|i: int| 0 <= i < both.len() implies low <= key_rank((#[trigger] both[i]).0)
        < high by {
        if i < a.len() {
            assert(both[i] == a[i]);
        } else {
            assert(both[i] == b[i - a.len()]);
        }
    }
    assert forall|i: int, j: int| 0 <= i < j < both.len() implies key_rank(
        (#[trigger] both[i]).0,
    ) < key_rank((#[trigger] both[j]).0) by {
        if i < a.len() {
            assert(both[i] == a[i]);
        } else {
            assert(both[i] == b[i - a.len()]);
        }
        if j < a.len() {
            assert(both[j] == a[j]);
        } else {
            assert(both[j] == b[j - a.len()]);
        }
    }
}

/// A run in rising order stays one when its bounds are widened.
pub proof fn lemma_ranked_widen(members: Members, low: int, high: int, lower: int, higher: int)
    requires
        ranked(members, low, high),
        lower <= low,
        high <= higher,
    ensures
        ranked(members, lower, higher),
{
}

} // verus!
