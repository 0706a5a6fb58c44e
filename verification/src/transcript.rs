//! The bounded, most-recent-first transcript of a conversation that the
//! advisor reads.
use vstd::prelude::*;

use crate::protocol::ContentItem;
use crate::protocol::ResponseItem;
use crate::text::concat;
use crate::text::str_eq;
use crate::text::take_at_most;
use crate::text::take_chars;

verus! {

/// The largest number of characters of all entries together.
pub const MAX_CONTEXT_CHARS: usize = 5000;

/// The largest number of characters of one entry.
pub const MAX_ENTRY_CHARS: usize = 1200;

/// The text parts of a message's content, one after another.
pub open spec fn message_text(content: Seq<ContentItem>) -> Seq<char>
    decreases content.len(),
{
    if content.len() == 0 {
        Seq::empty()
    } else {
        message_text(content.drop_last()) + match content.last() {
            ContentItem::InputText { text } => text@,
            ContentItem::OutputText { text } => text@,
            ContentItem::InputImage { .. } => Seq::empty(),
        }
    }
}

/// How one history item reads in the transcript before the transcript's
/// bounds apply, or `None` for an item that the transcript leaves out.
pub open spec fn render_item(item: ResponseItem) -> Option<Seq<char>> {
    match item {
        ResponseItem::Message { role, content } => {
            if role@ == "user"@ || role@ == "assistant"@ {
                Some(role@ + ": "@ + take_at_most(message_text(content@), MAX_ENTRY_CHARS as int))
            } else {
                None
            }
        },
        ResponseItem::FunctionCall { name, .. } => Some("Tool call: "@ + name@),
        ResponseItem::FunctionCallOutput { name, text_content, .. } => {
            let shown_name = match name {
                Some(n) => n@,
                None => "unknown"@,
            };
            let shown_text = match text_content {
                Some(t) => t@,
                None => "[non-text result]"@,
            };
            Some(
                "Tool result ("@ + shown_name + "): "@ + take_at_most(
                    shown_text,
                    MAX_ENTRY_CHARS as int,
                ),
            )
        },
        ResponseItem::Other => None,
    }
}

/// The entry budget for an item when `remaining` characters are left.
pub open spec fn entry_budget(remaining: int) -> int {
    if remaining < MAX_ENTRY_CHARS {
        remaining
    } else {
        MAX_ENTRY_CHARS as int
    }
}

/// The entries drawn from `history[0..n]`, in conversation order, when
/// `remaining` characters are left: items are taken newest first, each
/// rendered item cut to the entry budget, empty entries skipped, until the
/// budget is spent or the items run out.
pub open spec fn bounded_entries(history: Seq<ResponseItem>, n: int, remaining: int) -> Seq<
    Seq<char>,
>
    decreases n,
{
    if n <= 0 || remaining <= 0 {
        Seq::empty()
    } else {
        match render_item(history[n - 1]) {
            None => bounded_entries(history, n - 1, remaining),
            Some(e) => {
                let t = take_at_most(e, entry_budget(remaining));
                if t.len() == 0 {
                    bounded_entries(history, n - 1, remaining)
                } else {
                    bounded_entries(history, n - 1, remaining - t.len()).push(t)
                }
            },
        }
    }
}

/// The transcript of a whole history.
pub open spec fn transcript_entries(history: Seq<ResponseItem>) -> Seq<Seq<char>> {
    bounded_entries(history, history.len() as int, MAX_CONTEXT_CHARS as int)
}

/// The texts of a sequence of strings.
pub open spec fn texts(s: Seq<String>) -> Seq<Seq<char>> {
    s.map_values(|x: String| x@)
}

fn message_text_of(content: &Vec<ContentItem>) -> (res: String)
    ensures
        res@ == message_text(content@),
{
    let mut acc = String::new();
    let mut i: usize = 0;
    while i < content.len()
        invariant
            i <= content@.len(),
            acc@ == message_text(content@.take(i as int)),
        decreases content.len() - i,
    {
        proof {
            assert(content@.take(i + 1).drop_last() =~= content@.take(i as int));
        }
        match &content[i] {
            ContentItem::InputText { text } => {
                acc.append(text.as_str());
            },
            ContentItem::OutputText { text } => {
                acc.append(text.as_str());
            },
            ContentItem::InputImage { .. } => {
                assert(acc@ + Seq::<char>::empty() =~= acc@);
            },
        }
        i = i + 1;
    }
    assert(content@.take(content@.len() as int) =~= content@);
    acc
}

/// Renders one history item as `render_item` says.
pub fn render_entry(item: &ResponseItem) -> (res: Option<String>)
    ensures
        match res {
            Some(s) => render_item(*item) == Some(s@),
            None => render_item(*item) is None,
        },
{
    match item {
        ResponseItem::Message { role, content } => {
            if str_eq(role.as_str(), "user") || str_eq(role.as_str(), "assistant") {
                let text = message_text_of(content);
                let cut = take_chars(text.as_str(), MAX_ENTRY_CHARS);
                let head = concat(role.as_str(), ": ");
                Some(concat(head.as_str(), cut.as_str()))
            } else {
                None
            }
        },
        ResponseItem::FunctionCall { name, .. } => Some(concat("Tool call: ", name.as_str())),
        ResponseItem::FunctionCallOutput { name, text_content, .. } => {
            let shown_name: &str = match name {
                Some(n) => n.as_str(),
                None => "unknown",
            };
            let shown_text: &str = match text_content {
                Some(t) => t.as_str(),
                None => "[non-text result]",
            };
            let cut = take_chars(shown_text, MAX_ENTRY_CHARS);
            let a = concat("Tool result (", shown_name);
            let b = concat(a.as_str(), "): ");
            Some(concat(b.as_str(), cut.as_str()))
        },
        ResponseItem::Other => None,
    }
}

/// The bounded transcript of `history`: at most `MAX_CONTEXT_CHARS`
/// characters in all, at most `MAX_ENTRY_CHARS` per entry, the most recent
/// items kept, in conversation order.
pub fn bounded_transcript(history: &Vec<ResponseItem>) -> (res: Vec<String>)
    ensures
        texts(res@) == transcript_entries(history@),
{
    let mut entries: Vec<String> = Vec::new();
    let mut remaining: usize = MAX_CONTEXT_CHARS;
    let mut i: usize = history.len();
    while i > 0
        invariant_except_break
            i <= history@.len(),
            remaining <= MAX_CONTEXT_CHARS,
            remaining > 0,
            transcript_entries(history@) == bounded_entries(history@, i as int, remaining as int)
                + texts(entries@),
        ensures
            texts(entries@) == transcript_entries(history@),
        decreases i,
    {
        let item = &history[i - 1];
        let rendered = render_entry(item);
        let ghost before = texts(entries@);
        match rendered {
            None => {
            },
            Some(e) => {
                let budget = if remaining < MAX_ENTRY_CHARS {
                    remaining
                } else {
                    MAX_ENTRY_CHARS
                };
                let t = take_chars(e.as_str(), budget);
                let tlen = t.unicode_len();
                if tlen != 0 {
                    let ghost tv = t@;
                    remaining = remaining - tlen;
                    entries.insert(0, t);
                    proof {
                        assert(texts(entries@) =~= seq![tv] + before);
                        assert(bounded_entries(history@, i - 1, remaining as int).push(tv) + before
                            =~= bounded_entries(history@, i - 1, remaining as int) + texts(
                            entries@,
                        ));
                    }
                    if remaining == 0 {
                        proof {
                            assert(bounded_entries(history@, i - 1, 0) =~= Seq::<Seq<char>>::empty());
                            assert(Seq::<Seq<char>>::empty() + texts(entries@) =~= texts(entries@));
                        }
                        break;
                    }
                }
            },
        }
        i = i - 1;
    }
    proof {
        if i == 0 {
            assert(Seq::<Seq<char>>::empty() + texts(entries@) =~= texts(entries@));
        }
    }
    entries
}

/// The number of characters of all entries together.
pub open spec fn total_chars(entries: Seq<Seq<char>>) -> int
    decreases entries.len(),
{
    if entries.len() == 0 {
        0
    } else {
        total_chars(entries.drop_last()) + entries.last().len()
    }
}

/// Every rendered item of `history[0..n]`, in conversation order, with no
/// bound applied.
pub open spec fn renderings(history: Seq<ResponseItem>, n: int) -> Seq<Seq<char>>
    decreases n,
{
    if n <= 0 {
        Seq::empty()
    } else {
        match render_item(history[n - 1]) {
            None => renderings(history, n - 1),
            Some(e) => renderings(history, n - 1).push(e),
        }
    }
}

proof fn lemma_bounded_entries_within(history: Seq<ResponseItem>, n: int, remaining: int)
    requires
        remaining >= 0,
    ensures
        total_chars(bounded_entries(history, n, remaining)) <= remaining,
        forall|k: int|
            0 <= k < bounded_entries(history, n, remaining).len() ==> 0 < (#[trigger] bounded_entries(
                history,
                n,
                remaining,
            )[k]).len() <= MAX_ENTRY_CHARS,
    decreases n,
{
    if n <= 0 || remaining <= 0 {
    } else {
        match render_item(history[n - 1]) {
            None => {
                lemma_bounded_entries_within(history, n - 1, remaining);
            },
            Some(e) => {
                let t = take_at_most(e, entry_budget(remaining));
                if t.len() == 0 {
                    lemma_bounded_entries_within(history, n - 1, remaining);
                } else {
                    lemma_bounded_entries_within(history, n - 1, remaining - t.len());
                    let rest = bounded_entries(history, n - 1, remaining - t.len());
                    assert(rest.push(t).drop_last() =~= rest);
                    assert forall|k: int| 0 <= k < rest.push(t).len() implies 0 < (
                    #[trigger] rest.push(t)[k]).len() <= MAX_ENTRY_CHARS by {
                        if k < rest.len() {
                            assert(rest.push(t)[k] == rest[k]);
                        }
                    }
                }
            },
        }
    }
}

/// The transcript never exceeds its bounds: all entries together hold at
/// most `MAX_CONTEXT_CHARS` characters, and each entry holds at least one
/// and at most `MAX_ENTRY_CHARS`.
pub proof fn transcript_is_bounded(history: Seq<ResponseItem>)
    ensures
        total_chars(transcript_entries(history)) <= MAX_CONTEXT_CHARS,
        forall|k: int|
            0 <= k < transcript_entries(history).len() ==> 0 < (
            #[trigger] transcript_entries(history)[k]).len() <= MAX_ENTRY_CHARS,
{
    lemma_bounded_entries_within(history, history.len() as int, MAX_CONTEXT_CHARS as int);
}

proof fn lemma_render_not_empty(item: ResponseItem)
    ensures
        render_item(item) matches Some(e) ==> e.len() > 0,
{
    reveal_strlit(": ");
    reveal_strlit("Tool call: ");
    reveal_strlit("Tool result (");
}

proof fn lemma_fitting_history_kept(history: Seq<ResponseItem>, n: int, remaining: int)
    requires
        0 <= n <= history.len(),
        total_chars(renderings(history, n)) <= remaining,
        forall|k: int|
            0 <= k < renderings(history, n).len() ==> (#[trigger] renderings(history, n)[k]).len()
                <= MAX_ENTRY_CHARS,
    ensures
        bounded_entries(history, n, remaining) == renderings(history, n),
    decreases n,
{
    if n <= 0 {
    } else {
        let r = renderings(history, n - 1);
        lemma_render_not_empty(history[n - 1]);
        match render_item(history[n - 1]) {
            None => {
                lemma_fitting_history_kept(history, n - 1, remaining);
            },
            Some(e) => {
                assert(r.push(e).drop_last() =~= r);
                assert(r.push(e)[r.len() as int] == e);
                assert forall|k: int| 0 <= k < r.len() implies (#[trigger] r[k]).len()
                    <= MAX_ENTRY_CHARS by {
                    assert(r.push(e)[k] == r[k]);
                }
                assert(total_chars(r.push(e)) == total_chars(r) + e.len());
                lemma_total_chars_nonneg(r);
                assert(e.len() <= MAX_ENTRY_CHARS);
                assert(take_at_most(e, entry_budget(remaining)) == e);
                if remaining - e.len() == 0 {
                    lemma_renderings_empty_when_no_chars(history, n - 1);
                }
                lemma_fitting_history_kept(history, n - 1, remaining - e.len());
            },
        }
    }
}

proof fn lemma_renderings_empty_when_no_chars(history: Seq<ResponseItem>, n: int)
    requires
        total_chars(renderings(history, n)) == 0,
    ensures
        renderings(history, n).len() == 0,
    decreases n,
{
    if n > 0 {
        lemma_render_not_empty(history[n - 1]);
        lemma_total_chars_nonneg(renderings(history, n - 1));
        match render_item(history[n - 1]) {
            None => {
                lemma_renderings_empty_when_no_chars(history, n - 1);
            },
            Some(e) => {
                let r = renderings(history, n - 1);
                assert(r.push(e).drop_last() =~= r);
                assert(r.push(e).last() == e);
            },
        }
    }
}

proof fn lemma_total_chars_nonneg(entries: Seq<Seq<char>>)
    ensures
        total_chars(entries) >= 0,
    decreases entries.len(),
{
    if entries.len() > 0 {
        lemma_total_chars_nonneg(entries.drop_last());
    }
}

/// Nothing is lost when the history fits: if every rendered item holds at
/// most `MAX_ENTRY_CHARS` characters and all of them together at most
/// `MAX_CONTEXT_CHARS`, the transcript is every rendered item, in order.
pub proof fn transcript_keeps_a_fitting_history(history: Seq<ResponseItem>)
    requires
        total_chars(renderings(history, history.len() as int)) <= MAX_CONTEXT_CHARS,
        forall|k: int|
            0 <= k < renderings(history, history.len() as int).len() ==> (#[trigger] renderings(
                history,
                history.len() as int,
            )[k]).len() <= MAX_ENTRY_CHARS,
    ensures
        transcript_entries(history) == renderings(history, history.len() as int),
{
    lemma_fitting_history_kept(history, history.len() as int, MAX_CONTEXT_CHARS as int);
}

/// The most recent item that the transcript reads always ends it, cut to
/// `MAX_ENTRY_CHARS` characters.
pub proof fn transcript_ends_with_the_latest_item(history: Seq<ResponseItem>)
    requires
        history.len() > 0,
        render_item(history.last()) is Some,
    ensures
        transcript_entries(history).len() > 0,
        transcript_entries(history).last() == take_at_most(
            render_item(history.last())->0,
            MAX_ENTRY_CHARS as int,
        ),
{
    lemma_render_not_empty(history.last());
    let e = render_item(history.last())->0;
    let t = take_at_most(e, MAX_ENTRY_CHARS as int);
    assert(t.len() > 0);
    let rest = bounded_entries(
        history,
        history.len() - 1,
        MAX_CONTEXT_CHARS - t.len(),
    );
    assert(rest.push(t).last() == t);
}

/// Every rendered item of `history[0..n]`, in conversation order, each cut
/// to `MAX_ENTRY_CHARS` characters.
pub open spec fn capped_renderings(history: Seq<ResponseItem>, n: int) -> Seq<Seq<char>>
    decreases n,
{
    if n <= 0 {
        Seq::empty()
    } else {
        match render_item(history[n - 1]) {
            None => capped_renderings(history, n - 1),
            Some(e) => capped_renderings(history, n - 1).push(
                take_at_most(e, MAX_ENTRY_CHARS as int),
            ),
        }
    }
}

/// Whether `entries` are the newest of `capped`, each as it is except the
/// oldest kept one, which may be cut short, and whether anything older is
/// left out only when `budget` characters are used up.
pub open spec fn is_newest_suffix(
    entries: Seq<Seq<char>>,
    capped: Seq<Seq<char>>,
    budget: int,
) -> bool {
    let d = capped.len() - entries.len();
    &&& entries.len() <= capped.len()
    &&& forall|k: int| 0 < k < entries.len() ==> #[trigger] entries[k] == capped[d + k]
    &&& entries.len() > 0 ==> {
        &&& entries[0].len() <= capped[d].len()
        &&& entries[0] == capped[d].take(entries[0].len() as int)
    }
    &&& entries.len() < capped.len() ==> total_chars(entries) == budget
}

proof fn lemma_newest_suffix(history: Seq<ResponseItem>, n: int, remaining: int)
    requires
        0 <= n <= history.len(),
        remaining >= 0,
    ensures
        is_newest_suffix(
            bounded_entries(history, n, remaining),
            capped_renderings(history, n),
            remaining,
        ),
    decreases n,
{
    let b = bounded_entries(history, n, remaining);
    let c = capped_renderings(history, n);
    if n <= 0 {
    } else if remaining <= 0 {
        assert(b.len() == 0);
        assert(total_chars(b) == 0);
    } else {
        lemma_render_not_empty(history[n - 1]);
        match render_item(history[n - 1]) {
            None => {
                lemma_newest_suffix(history, n - 1, remaining);
            },
            Some(e) => {
                let budget = entry_budget(remaining);
                let t = take_at_most(e, budget);
                let ce = take_at_most(e, MAX_ENTRY_CHARS as int);
                assert(t.len() > 0);
                let r2 = remaining - t.len();
                lemma_newest_suffix(history, n - 1, r2);
                let b1 = bounded_entries(history, n - 1, r2);
                let c1 = capped_renderings(history, n - 1);
                assert(b == b1.push(t));
                assert(c == c1.push(ce));
                assert(t.len() <= ce.len());
                assert(t =~= ce.take(t.len() as int));
                let d = c.len() - b.len();
                assert(d == c1.len() - b1.len());
                if b1.len() > 0 {
                    assert(r2 > 0) by {
                        if r2 == 0 {
                            assert(b1.len() == 0);
                        }
                    }
                    assert(t == ce);
                    assert forall|k: int| 0 < k < b.len() implies #[trigger] b[k] == c[d + k] by {
                        if k < b1.len() {
                            assert(b[k] == b1[k]);
                            assert(c[d + k] == c1[d + k]);
                        }
                    }
                    assert(b[0] == b1[0]);
                    assert(c[d] == c1[d]);
                } else {
                    assert(b[0] == t);
                    assert(c[d] == ce);
                }
                assert(b.drop_last() =~= b1);
                if b.len() < c.len() {
                    assert(b1.len() < c1.len());
                }
            },
        }
    }
}

/// The transcript is the newest of the capped renderings: every entry but
/// the oldest is a rendered item cut to `MAX_ENTRY_CHARS`, in order and
/// ending with the latest; the oldest kept entry is the start of its item;
/// and older items are left out only when all `MAX_CONTEXT_CHARS`
/// characters are used.
pub proof fn transcript_is_the_newest_capped_renderings(history: Seq<ResponseItem>)
    ensures
        is_newest_suffix(
            transcript_entries(history),
            capped_renderings(history, history.len() as int),
            MAX_CONTEXT_CHARS as int,
        ),
{
    lemma_newest_suffix(history, history.len() as int, MAX_CONTEXT_CHARS as int);
}

/// How each kind of item reads in the transcript, kind by kind: a user or
/// assistant message as its role, ": " and its text parts cut to
/// `MAX_ENTRY_CHARS`; a tool call as "Tool call: " and its name; a tool
/// result as "Tool result (", its name (or "unknown"), "): " and its text
/// cut to `MAX_ENTRY_CHARS` (or "[non-text result]" when it has no text);
/// messages of any other role and items of any other kind not at all.
pub proof fn items_read_by_kind(item: ResponseItem)
    ensures
        match item {
            ResponseItem::Message { role, content } => if role@ == "user"@ || role@
                == "assistant"@ {
                render_item(item) == Some(
                    role@ + ": "@ + take_at_most(message_text(content@), MAX_ENTRY_CHARS as int),
                )
            } else {
                render_item(item) is None
            },
            ResponseItem::FunctionCall { name, .. } => render_item(item) == Some(
                "Tool call: "@ + name@,
            ),
            ResponseItem::FunctionCallOutput { name: Some(n), text_content: Some(t), .. } => render_item(item)
                == Some("Tool result ("@ + n@ + "): "@ + take_at_most(t@, MAX_ENTRY_CHARS as int)),
            ResponseItem::FunctionCallOutput { name: None, text_content: Some(t), .. } => render_item(item)
                == Some(
                "Tool result (unknown): "@ + take_at_most(t@, MAX_ENTRY_CHARS as int),
            ),
            ResponseItem::FunctionCallOutput { name: Some(n), text_content: None, .. } => render_item(item)
                == Some("Tool result ("@ + n@ + "): [non-text result]"@),
            ResponseItem::FunctionCallOutput { name: None, text_content: None, .. } => render_item(item)
                == Some("Tool result (unknown): [non-text result]"@),
            ResponseItem::Other => render_item(item) is None,
        },
{
    reveal_strlit("Tool result (");
    reveal_strlit("unknown");
    reveal_strlit("): ");
    reveal_strlit("Tool result (unknown): ");
    reveal_strlit("[non-text result]");
    reveal_strlit("): [non-text result]");
    reveal_strlit("Tool result (unknown): [non-text result]");
    match item {
        ResponseItem::FunctionCallOutput { name, text_content, .. } => {
            let nt: Seq<char> = "[non-text result]"@;
            assert(take_at_most(nt, MAX_ENTRY_CHARS as int) == nt);
            match name {
                Some(n) => {
                    match text_content {
                        Some(t) => {},
                        None => {
                            assert("Tool result ("@ + n@ + "): "@ + nt =~= "Tool result ("@ + n@
                                + "): [non-text result]"@);
                        },
                    }
                },
                None => {
                    match text_content {
                        Some(t) => {
                            assert("Tool result ("@ + "unknown"@ + "): "@ + take_at_most(
                                t@,
                                MAX_ENTRY_CHARS as int,
                            ) =~= "Tool result (unknown): "@ + take_at_most(
                                t@,
                                MAX_ENTRY_CHARS as int,
                            ));
                        },
                        None => {
                            assert("Tool result ("@ + "unknown"@ + "): "@ + nt
                                =~= "Tool result (unknown): [non-text result]"@);
                        },
                    }
                },
            }
        },
        _ => {},
    }
}

/// The text of a message is its text parts in order: adding an input or
/// output text part adds its text at the end; adding an image adds nothing.
pub proof fn message_text_grows_by_text_parts(content: Seq<ContentItem>, part: ContentItem)
    ensures
        message_text(content.push(part)) == message_text(content) + match part {
            ContentItem::InputText { text } => text@,
            ContentItem::OutputText { text } => text@,
            ContentItem::InputImage { .. } => Seq::<char>::empty(),
        },
        message_text(Seq::<ContentItem>::empty()) == Seq::<char>::empty(),
{
    assert(content.push(part).drop_last() =~= content);
}

} // verus!
