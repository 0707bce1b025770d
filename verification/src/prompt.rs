use vstd::prelude::*;
use vstd::string::StrSliceExecFns;

use crate::error::Error;
use crate::provider::{Message, MessageView};
use crate::text::{assistant_prefix, str_eq, user_prefix};

verus! {

/// What a stored history entry denotes: `USER:<t>` denotes user input
/// `t`, `ASSISTANT:<t>` a generated reply `t`, and anything else is
/// malformed.
pub open spec fn parse_entry(e: Seq<char>) -> Option<MessageView> {
    if e.len() >= 5 && e.subrange(0, 5) == user_prefix() {
        Some(MessageView::User(e.skip(5)))
    } else if e.len() >= 10 && e.subrange(0, 10) == assistant_prefix() {
        Some(MessageView::Assistant(e.skip(10)))
    } else {
        None
    }
}

/// Every entry of `h` carries a recognized role prefix.
pub open spec fn entries_wf(h: Seq<Seq<char>>) -> bool {
    forall|i: int| 0 <= i < h.len() ==> #[trigger] parse_entry(h[i]) is Some
}

/// The messages denoted by a well-formed stretch of history.
pub open spec fn parsed(h: Seq<Seq<char>>) -> Seq<MessageView> {
    Seq::new(h.len(), |i: int| parse_entry(h[i]).unwrap())
}

/// The window of history used for one request: the most recent
/// `context_length` entries.  Only the view is truncated, never the
/// stored history.
pub open spec fn truncated(h: Seq<Seq<char>>, context_length: nat) -> Seq<Seq<char>> {
    if h.len() > context_length {
        h.subrange(h.len() - context_length, h.len() as int)
    } else {
        h
    }
}

/// The character sequences of a sequence of messages.
pub open spec fn views_of(msgs: Seq<Message>) -> Seq<MessageView> {
    Seq::new(msgs.len(), |i: int| msgs[i]@)
}

/// The base prompt for one request: the system message followed by the
/// truncated history window, or nothing if some entry in the window is
/// malformed.
pub open spec fn prompt_model(sys: Seq<char>, h: Seq<Seq<char>>, context_length: nat) -> Option<
    Seq<MessageView>,
> {
    let w = truncated(h, context_length);
    if entries_wf(w) {
        Some(seq![MessageView::System(sys)] + parsed(w))
    } else {
        None
    }
}

/// For a history longer than the window, the base prompt holds exactly
/// the last `context_length` stored entries after the system message,
/// never more.
pub proof fn lemma_prompt_window(sys: Seq<char>, h: Seq<Seq<char>>, context_length: nat)
    requires
        h.len() > context_length,
        entries_wf(truncated(h, context_length)),
    ensures
        ({
            let p = prompt_model(sys, h, context_length).unwrap();
            &&& p.len() == context_length + 1
            &&& p[0] == MessageView::System(sys)
            &&& forall|j: int|
                h.len() - context_length <= j < h.len() ==> p[j + context_length + 1 - h.len()]
                    == parse_entry(#[trigger] h[j]).unwrap()
        }),
{
    let w = truncated(h, context_length);
    let p = prompt_model(sys, h, context_length).unwrap();
    assert forall|j: int|
        h.len() - context_length <= j < h.len() implies p[j + context_length + 1 - h.len()]
        == parse_entry(h[j]).unwrap() by {
        let i = j - (h.len() - context_length);
        assert(w[i] == h[j]);
        assert(p[i + 1] == parsed(w)[i]);
    }
}

/// Decodes one stored history entry into a prompt message, rejecting an
/// entry that carries neither role prefix.
pub fn parse_message(msg: &str) -> (r: Result<Message, Error>)
    ensures
        match r {
            Ok(m) => parse_entry(msg@) == Some(m@),
            Err(e) => parse_entry(msg@) is None && e == Error::MalformedHistoryEntry,
        },
{
    let n = msg.unicode_len();
    if n >= 5 && str_eq(msg.substring_char(0, 5), "USER:") {
        let rest = msg.substring_char(5, n).to_owned();
        proof {
            assert(msg@.subrange(5, n as int) =~= msg@.skip(5));
        }
        Ok(Message::User(rest))
    } else if n >= 10 && str_eq(msg.substring_char(0, 10), "ASSISTANT:") {
        let rest = msg.substring_char(10, n).to_owned();
        proof {
            assert(msg@.subrange(10, n as int) =~= msg@.skip(10));
        }
        Ok(Message::Assistant(rest))
    } else {
        Err(Error::MalformedHistoryEntry)
    }
}

/// Builds the base prompt for one request: the system message, then the
/// most recent `context_length` stored entries, decoded.  Fails exactly
/// when some entry of that window is malformed.
pub fn build_prompt(system_prompt: &str, history: &Vec<String>, context_length: usize) -> (r:
    Result<Vec<Message>, Error>)
    ensures
        match r {
            Ok(p) => prompt_model(system_prompt@, history.deep_view(), context_length as nat)
                == Some(views_of(p@)),
            Err(e) => {
                &&& prompt_model(system_prompt@, history.deep_view(), context_length as nat)
                    is None
                &&& e == Error::MalformedHistoryEntry
            },
        },
{
    let ghost hv: Seq<Seq<char>> = history.deep_view();
    let ghost w: Seq<Seq<char>> = truncated(hv, context_length as nat);
    let n = history.len();
    let start: usize = if n > context_length {
        n - context_length
    } else {
        0
    };
    proof {
        assert(w =~= hv.subrange(start as int, n as int));
    }
    let mut prompt: Vec<Message> = Vec::new();
    prompt.push(Message::System(system_prompt.to_owned()));
    let mut i = start;
    while i < n
        invariant
            start <= i <= n,
            n == history.len(),
            hv == history.deep_view(),
            w == truncated(hv, context_length as nat),
            w =~= hv.subrange(start as int, n as int),
            prompt@.len() == 1 + i - start,
            prompt@[0]@ == MessageView::System(system_prompt@),
            forall|j: int| start <= j < i ==> #[trigger] parse_entry(hv[j]) is Some,
            forall|j: int|
                start <= j < i ==> prompt@[1 + j - start]@ == parse_entry(
                    #[trigger] hv[j],
                ).unwrap(),
        decreases n - i,
    {
        match parse_message(history[i].as_str()) {
            Ok(m) => {
                prompt.push(m);
            },
            Err(e) => {
                proof {
                    assert(w[i - start] == hv[i as int]);
                    assert(!entries_wf(w));
                }
                return Err(e);
            },
        }
        i += 1;
    }
    proof {
        assert forall|k: int| 0 <= k < w.len() implies #[trigger] parse_entry(w[k]) is Some by {
            assert(w[k] == hv[start + k]);
        }
        assert(views_of(prompt@) =~= seq![MessageView::System(system_prompt@)] + parsed(w)) by {
            assert forall|k: int| 0 <= k < w.len() implies views_of(prompt@)[1 + k] == parsed(w)[k]
            by {
                assert(w[k] == hv[start + k]);
                assert(prompt@[1 + k]@ == parse_entry(hv[start + k]).unwrap());
            }
        }
    }
    Ok(prompt)
}

} // verus!
