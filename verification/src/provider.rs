use vstd::prelude::*;
use vstd::string::StrSliceExecFns;

verus! {

/// One prompt-construction unit: a role-tagged piece of text.
pub enum Message {
    User(String),
    Assistant(String),
    System(String),
}

/// Mathematical value of a [`Message`]: the same tag over a character
/// sequence.
pub enum MessageView {
    User(Seq<char>),
    Assistant(Seq<char>),
    System(Seq<char>),
}

impl View for Message {
    type V = MessageView;

    open spec fn view(&self) -> MessageView {
        match self {
            Message::User(t) => MessageView::User(t@),
            Message::Assistant(t) => MessageView::Assistant(t@),
            Message::System(t) => MessageView::System(t@),
        }
    }
}

/// Token-usage statistics optionally returned by a provider call.
#[derive(Clone, Copy, PartialEq, Eq, Structural, Debug)]
pub struct Usage {
    pub completion: usize,
    pub prompt: usize,
}

/// The concrete backends a configuration can select.
#[derive(Clone, Copy, PartialEq, Eq, Structural, Debug)]
pub enum ProviderKind {
    OpenAI,
}

/// An upper-case ASCII letter mapped to its lower-case form; any other
/// character is unchanged.
pub open spec fn lower_ascii_char(c: char) -> char {
    if 'A' <= c && c <= 'Z' {
        (((c as u8) + 32) as char)
    } else {
        c
    }
}

/// A character sequence with every upper-case ASCII letter lowered.
pub open spec fn lower_ascii(s: Seq<char>) -> Seq<char> {
    Seq::new(s.len(), |i: int| lower_ascii_char(s[i]))
}

/// Maps a configured backend name to the provider it selects: the
/// match ignores ASCII case, and an unrecognized name selects nothing
/// (the caller fails fast).
pub fn provider_kind(name: &str) -> (r: Option<ProviderKind>)
    ensures
        r == (if lower_ascii(name@) == "openai"@ {
            Some(ProviderKind::OpenAI)
        } else {
            None::<ProviderKind>
        }),
{
    proof {
        reveal_strlit("openai");
    }
    let n = name.unicode_len();
    if n != 6 {
        proof {
            assert(lower_ascii(name@).len() != "openai"@.len());
        }
        return None;
    }
    let target = "openai";
    let mut i: usize = 0;
    while i < 6
        invariant
            0 <= i <= 6,
            n == 6,
            n == name@.len(),
            target@ == "openai"@,
            target@.len() == 6,
            forall|j: int| 0 <= j < i ==> lower_ascii(name@)[j] == target@[j],
        decreases 6 - i,
    {
        let c = name.get_char(i);
        let lc: char = if 'A' <= c && c <= 'Z' {
            ((c as u8) + 32) as char
        } else {
            c
        };
        if lc != target.get_char(i) {
            proof {
                assert(lower_ascii(name@)[i as int] != "openai"@[i as int]);
            }
            return None;
        }
        i += 1;
    }
    proof {
        assert(lower_ascii(name@) =~= "openai"@);
    }
    Some(ProviderKind::OpenAI)
}

} // verus!
