//! What holds of the messages of every conversation.
use vstd::prelude::*;

use crate::conversation::{
    after_assistant, after_item, after_items, calls_message, chat_messages, flushed, fresh,
    item_call, message_content, output_text, role_message, says_nothing, spoken, tool_message,
    Conversation, ResponseItem,
};
use crate::json::JsonView;

verus! {

/// The calls that a message makes.
pub open spec fn message_calls(message: JsonView) -> Seq<JsonView> {
    match message {
        JsonView::Object(fields) => if fields.contains_key("tool_calls"@) {
            match fields["tool_calls"@] {
                JsonView::Array(calls) => calls,
                _ => Seq::empty(),
            }
        } else {
            Seq::empty()
        },
        _ => Seq::empty(),
    }
}

/// The calls that the messages make, in order.
pub open spec fn calls_made(messages: Seq<JsonView>) -> Seq<JsonView>
    decreases messages.len(),
{
    if messages.len() == 0 {
        Seq::empty()
    } else {
        calls_made(messages.drop_last()) + message_calls(messages.last())
    }
}

/// The calls that the items of a conversation make, in order.
pub open spec fn item_calls(items: Seq<ResponseItem>) -> Seq<JsonView>
    decreases items.len(),
{
    if items.len() == 0 {
        Seq::empty()
    } else {
        let before = item_calls(items.drop_last());
        match item_call(items.last()) {
            Some(call) => before.push(call),
            None => before,
        }
    }
}

/// Whether a message is the answer to a call.
pub open spec fn is_answer(message: JsonView) -> bool {
    message matches JsonView::Object(fields) && fields.contains_key("tool_call_id"@)
}

/// The answer that an item gives, where it gives one.
pub open spec fn item_answer(item: ResponseItem) -> Option<JsonView> {
    match item {
        ResponseItem::FunctionCallOutput { call_id, output } => Some(
            tool_message(output_text(output), call_id@),
        ),
        ResponseItem::CustomToolCallOutput { call_id, output } => Some(
            tool_message(output_text(output), call_id@),
        ),
        _ => None,
    }
}

/// The answers that the items of a conversation give, in order.
pub open spec fn item_answers(items: Seq<ResponseItem>) -> Seq<JsonView>
    decreases items.len(),
{
    if items.len() == 0 {
        Seq::empty()
    } else {
        let before = item_answers(items.drop_last());
        match item_answer(items.last()) {
            Some(answer) => before.push(answer),
            None => before,
        }
    }
}

/// The messages that are answers, in order.
pub open spec fn answers_among(messages: Seq<JsonView>) -> Seq<JsonView>
    decreases messages.len(),
{
    if messages.len() == 0 {
        Seq::empty()
    } else {
        let before = answers_among(messages.drop_last());
        if is_answer(messages.last()) {
            before.push(messages.last())
        } else {
            before
        }
    }
}

/// What each kind of message makes of calls and answers.
proof fn lemma_message_kinds()
    ensures
        forall|role: Seq<char>, content: JsonView|
            message_calls(#[trigger] role_message(role, content)) == Seq::<JsonView>::empty()
                && !is_answer(role_message(role, content)),
        forall|content: Seq<char>, call_id: Seq<char>|
            message_calls(#[trigger] tool_message(content, call_id)) == Seq::<JsonView>::empty()
                && is_answer(tool_message(content, call_id)),
        forall|content: Seq<char>, calls: Seq<JsonView>|
            message_calls(#[trigger] calls_message(content, calls)) == calls && !is_answer(
                calls_message(content, calls),
            ),
{
    reveal_strlit("role");
    reveal_strlit("content");
    reveal_strlit("tool_calls");
    reveal_strlit("tool_call_id");
    assert("role"@.len() == 4 && "content"@.len() == 7);
    assert("tool_calls"@.len() == 10 && "tool_call_id"@.len() == 12);
}

proof fn lemma_push_message(messages: Seq<JsonView>, message: JsonView)
    ensures
        calls_made(messages.push(message)) == calls_made(messages) + message_calls(message),
        answers_among(messages.push(message)) == if is_answer(message) {
            answers_among(messages).push(message)
        } else {
            answers_among(messages)
        },
{
    assert(messages.push(message).drop_last() =~= messages);
}

/// Sending out the calls that wait loses none of them and answers nothing.
proof fn lemma_flushed(c: Conversation)
    ensures
        calls_made(flushed(c).messages) + flushed(c).calls == calls_made(c.messages) + c.calls,
        answers_among(flushed(c).messages) == answers_among(c.messages),
        flushed(c).calls.len() == 0,
{
    lemma_message_kinds();
    if c.calls.len() > 0 {
        lemma_push_message(c.messages, calls_message(c.content, c.calls));
        assert(calls_made(flushed(c).messages) + flushed(c).calls =~= calls_made(c.messages)
            + c.calls);
    }
}

proof fn lemma_after_item(c: Conversation, item: ResponseItem)
    ensures
        calls_made(after_item(c, item).messages) + after_item(c, item).calls == match item_call(
            item,
        ) {
            Some(call) => (calls_made(c.messages) + c.calls).push(call),
            None => calls_made(c.messages) + c.calls,
        },
        answers_among(after_item(c, item).messages) == match item_answer(item) {
            Some(answer) => answers_among(c.messages).push(answer),
            None => answers_among(c.messages),
        },
{
    let after = after_item(c, item);
    lemma_message_kinds();
    lemma_flushed(c);
    match item {
        ResponseItem::Message { role, content, contextual } => {
            if let Some(json) = message_content(content@) {
                let assistant = role_message("assistant"@, json);
                let user = role_message("user"@, json);
                lemma_push_message(c.messages, assistant);
                lemma_push_message(flushed(c).messages, user);
                assert(calls_made(c.messages) + message_calls(assistant) =~= calls_made(
                    c.messages,
                ));
                assert(calls_made(flushed(c).messages) + message_calls(user) =~= calls_made(
                    flushed(c).messages,
                ));
            }
        },
        ResponseItem::FunctionCallOutput { call_id, output } => {
            let message = tool_message(output_text(output), call_id@);
            lemma_push_message(flushed(c).messages, message);
            assert(calls_made(flushed(c).messages) + message_calls(message) =~= calls_made(
                flushed(c).messages,
            ));
        },
        ResponseItem::CustomToolCallOutput { call_id, output } => {
            let message = tool_message(output_text(output), call_id@);
            lemma_push_message(flushed(c).messages, message);
            assert(calls_made(flushed(c).messages) + message_calls(message) =~= calls_made(
                flushed(c).messages,
            ));
        },
        _ => {
            if let Some(call) = item_call(item) {
                assert(calls_made(after.messages) + after.calls =~= (calls_made(c.messages)
                    + c.calls).push(call));
            }
        },
    }
}

proof fn lemma_after_items(items: Seq<ResponseItem>)
    ensures
        calls_made(after_items(items).messages) + after_items(items).calls == item_calls(items),
        answers_among(after_items(items).messages) == item_answers(items),
    decreases items.len(),
{
    if items.len() == 0 {
        assert(calls_made(fresh().messages) + fresh().calls =~= item_calls(items));
    } else {
        lemma_after_items(items.drop_last());
        lemma_after_item(after_items(items.drop_last()), items.last());
    }
}

/// The messages of a conversation make exactly the calls that its items make, each once and in the
/// same order.
pub proof fn law_every_call_goes_out_once(items: Seq<ResponseItem>)
    ensures
        calls_made(chat_messages(items)) == item_calls(items),
{
    lemma_after_items(items);
    lemma_flushed(after_items(items));
    assert(calls_made(chat_messages(items)) + flushed(after_items(items)).calls =~= calls_made(
        chat_messages(items),
    ));
}

/// The messages of a conversation give exactly the answers that its items give, each once and in the
/// same order.
pub proof fn law_every_answer_goes_out_once(items: Seq<ResponseItem>)
    ensures
        answers_among(chat_messages(items)) == item_answers(items),
{
    lemma_after_items(items);
    lemma_flushed(after_items(items));
}

/// Nothing that the assistant says is held back unless a call waits with it: where no call waits, no
/// text waits.
pub proof fn law_no_text_waits_without_a_call(items: Seq<ResponseItem>)
    ensures
        after_items(items).calls.len() == 0 ==> after_items(items).content.len() == 0,
    decreases items.len(),
{
    if items.len() > 0 {
        law_no_text_waits_without_a_call(items.drop_last());
    }
}

/// What the assistant says while calls wait does not part the calls from their answers: no message
/// goes out, and the same calls wait.
pub proof fn law_assistant_text_joins_waiting_calls(c: Conversation, content: Option<JsonView>)
    requires
        c.calls.len() > 0,
    ensures
        after_assistant(c, content).messages == c.messages,
        after_assistant(c, content).calls == c.calls,
{
}

/// A message of the developer counts as one that the user wrote.
pub proof fn law_developer_message_is_a_user_message(
    c: Conversation,
    developer: ResponseItem,
    user: ResponseItem,
)
    requires
        developer matches ResponseItem::Message { role, .. } && role@ == "developer"@,
        user matches ResponseItem::Message { role, contextual, .. } && role@ == "user"@
            && !contextual,
        developer->Message_content@ == user->Message_content@,
    ensures
        after_item(c, developer) == after_item(c, user),
{
    reveal_strlit("assistant");
    reveal_strlit("developer");
    reveal_strlit("user");
    assert("developer"@.len() == 9 && "user"@.len() == 4 && "assistant"@.len() == 9);
    assert("developer"@[0] == 'd' && "assistant"@[0] == 'a');
}

/// Whether an item leaves no trace in the messages: context that the program put there, a message by
/// which the assistant says nothing, a message of an unknown role, or an item that is neither a message
/// nor a call nor an answer.
pub open spec fn leaves_no_trace(item: ResponseItem) -> bool {
    match item {
        ResponseItem::Message { role, content, contextual } => {
            ||| role@ == "user"@ && contextual
            ||| role@ == "assistant"@ && (message_content(content@) is None || says_nothing(
                message_content(content@)->Some_0,
            ))
            ||| role@ != "assistant"@ && role@ != "user"@ && role@ != "developer"@
        },
        ResponseItem::ToolSearchCall => true,
        ResponseItem::ToolSearchOutput => true,
        ResponseItem::Reasoning => true,
        ResponseItem::WebSearchCall => true,
        ResponseItem::ImageGenerationCall => true,
        ResponseItem::GhostSnapshot => true,
        ResponseItem::Compaction => true,
        ResponseItem::Other => true,
        _ => false,
    }
}

proof fn lemma_trace(before: Seq<ResponseItem>, item: ResponseItem, behind: Seq<ResponseItem>)
    requires
        leaves_no_trace(item),
    ensures
        after_items(before.push(item) + behind) == after_items(before + behind),
    decreases behind.len(),
{
    if behind.len() == 0 {
        reveal_strlit("assistant");
        reveal_strlit("user");
        assert("user"@.len() == 4 && "assistant"@.len() == 9);
        assert((before.push(item) + behind).drop_last() =~= before);
        assert((before.push(item) + behind).last() == item);
        assert(before + behind =~= before);
    } else {
        lemma_trace(before, item, behind.drop_last());
        assert((before.push(item) + behind).drop_last() =~= before.push(item)
            + behind.drop_last());
        assert((before + behind).drop_last() =~= before + behind.drop_last());
    }
}

/// An item that leaves no trace can be left out, wherever it stands.
pub proof fn law_traceless_items_can_be_left_out(
    before: Seq<ResponseItem>,
    item: ResponseItem,
    behind: Seq<ResponseItem>,
)
    requires
        leaves_no_trace(item),
    ensures
        chat_messages(before.push(item) + behind) == chat_messages(before + behind),
{
    lemma_trace(before, item, behind);
}

} // verus!
