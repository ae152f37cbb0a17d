//! Stored discussions: the kind of a message read back from its row, and the
//! text a discussion contributes to the full-text index.
use vstd::prelude::*;

use crate::settings::owned;
use crate::text::{chars_of, extend_chars, str_equal, string_of};

verus! {

/// What a message is.
#[derive(Clone, Copy, Debug, PartialEq, Eq, Structural)]
pub enum MessageKind {
    Normal,
    BanNotification,
    StageDirection,
}

/// How a kind is stored.
pub open spec fn kind_text(k: MessageKind) -> Seq<char> {
    match k {
        MessageKind::Normal => "normal"@,
        MessageKind::BanNotification => "banNotification"@,
        MessageKind::StageDirection => "stageDirection"@,
    }
}

/// The kind a stored text names; anything unknown is a normal message.
pub open spec fn kind_of_text(s: Seq<char>) -> MessageKind {
    if s == "banNotification"@ {
        MessageKind::BanNotification
    } else if s == "stageDirection"@ {
        MessageKind::StageDirection
    } else {
        MessageKind::Normal
    }
}

impl MessageKind {
    /// The stored text of the kind.
    pub fn as_str(&self) -> (r: String)
        ensures
            r@ == kind_text(*self),
    {
        match self {
            MessageKind::Normal => owned("normal"),
            MessageKind::BanNotification => owned("banNotification"),
            MessageKind::StageDirection => owned("stageDirection"),
        }
    }

    /// The kind a stored text names.
    pub fn parse(s: &str) -> (r: MessageKind)
        ensures
            r == kind_of_text(s@),
    {
        if str_equal(s, "banNotification") {
            MessageKind::BanNotification
        } else if str_equal(s, "stageDirection") {
            MessageKind::StageDirection
        } else {
            MessageKind::Normal
        }
    }
}

/// The kind of a stored message: rows written before kinds existed say
/// nothing, and a ban flag then makes the message a ban notification.
pub open spec fn stored_kind(kind: Seq<char>, is_ban_notification: bool) -> MessageKind {
    if kind_of_text(kind) == MessageKind::Normal && is_ban_notification {
        MessageKind::BanNotification
    } else {
        kind_of_text(kind)
    }
}

/// The kind of a message read back from its row.
pub fn message_kind_of_row(kind: &str, is_ban_notification: bool) -> (r: MessageKind)
    ensures
        r == stored_kind(kind@, is_ban_notification),
{
    let k = MessageKind::parse(kind);
    match k {
        MessageKind::Normal => {
            if is_ban_notification {
                MessageKind::BanNotification
            } else {
                MessageKind::Normal
            }
        },
        _ => k,
    }
}

/// A stored kind reads back as itself.
pub proof fn law_kind_round_trip(k: MessageKind, is_ban_notification: bool)
    ensures
        kind_of_text(kind_text(k)) == k,
        k != MessageKind::Normal ==> stored_kind(kind_text(k), is_ban_notification) == k,
        stored_kind(kind_text(MessageKind::Normal), false) == MessageKind::Normal,
{
    reveal_strlit("normal");
    reveal_strlit("banNotification");
    reveal_strlit("stageDirection");
    assert("normal"@.len() != "banNotification"@.len());
    assert("normal"@.len() != "stageDirection"@.len());
    assert("stageDirection"@.len() != "banNotification"@.len());
}

/// The texts of `ts` joined by single spaces.
pub open spec fn joined(ts: Seq<Seq<char>>) -> Seq<char>
    decreases ts.len(),
{
    if ts.len() == 0 {
        seq![]
    } else if ts.len() == 1 {
        ts[0]
    } else {
        joined(ts.drop_last()) + seq![' '] + ts.last()
    }
}

/// The message text a discussion contributes to the full-text index: every
/// message's content, joined by single spaces.
pub fn indexed_content(contents: &Vec<String>) -> (r: String)
    ensures
        r@ == joined(Seq::new(contents@.len(), |i: int| contents@[i]@)),
{
    let ghost ts = Seq::new(contents@.len(), |i: int| contents@[i]@);
    let mut out: Vec<char> = Vec::new();
    let mut i: usize = 0;
    while i < contents.len()
        invariant
            i <= contents.len(),
            ts == Seq::new(contents@.len(), |i: int| contents@[i]@),
            out@ == joined(ts.take(i as int)),
        decreases contents.len() - i,
    {
        proof {
            assert(ts.take(i + 1).drop_last() =~= ts.take(i as int));
            assert(ts.take(i + 1).last() == contents@[i as int]@);
            if i == 0 {
                assert(ts.take(1)[0] == contents@[0]@);
            }
        }
        if i > 0 {
            out.push(' ');
        }
        extend_chars(&mut out, &chars_of(contents[i].as_str()));
        proof {
            assert(out@ =~= joined(ts.take(i + 1)));
        }
        i += 1;
    }
    proof {
        assert(ts.take(contents.len() as int) =~= ts);
    }
    string_of(&out)
}

} // verus!
