//! What one more item does to the messages of a conversation, and how the messages of two
//! conversations relate.
use vstd::prelude::*;

use crate::conversation::{
    after_item, after_items, chat_messages, content_as_text, content_texts, flushed, fresh, item_call,
    lacks_call_id, message_content, output_text, read_so_far, tool_call, with_text, ContentItem,
    Conversation, FunctionCallOutputPayload, LocalShellAction, LocalShellExecAction, ResponseItem,
};
use crate::conversation_laws::{
    answers_among, calls_made, item_answers, item_calls, law_every_answer_goes_out_once,
    law_every_call_goes_out_once, law_no_text_waits_without_a_call,
};
use crate::json::{array_view, json_text, Json, JsonView};

verus! {

/// Whether an item is a call of a tool that can be answered.
pub open spec fn is_call(item: ResponseItem) -> bool {
    ||| item is FunctionCall
    ||| item is CustomToolCall
    ||| item matches ResponseItem::LocalShellCall { id, call_id, .. } && (id is Some || call_id
        is Some)
}

/// Whether an item ends the wait of the calls before it: an answer, or a message of the user or the
/// developer.
pub open spec fn ends_the_wait(item: ResponseItem) -> bool {
    ||| item is FunctionCallOutput
    ||| item is CustomToolCallOutput
    ||| item matches ResponseItem::Message { role, contextual, .. } && (role@ == "developer"@ || (
    role@ == "user"@ && !contextual))
}

/// Whether calls wait at the end of the items: there is one that nothing behind it makes go out.
pub open spec fn calls_wait(items: Seq<ResponseItem>) -> bool {
    exists|i: int|
        0 <= i < items.len() && #[trigger] is_call(items[i]) && forall|j: int|
            i < j < items.len() ==> !#[trigger] ends_the_wait(items[j])
}

proof fn lemma_roles()
    ensures
        "user"@ != "assistant"@,
        "user"@ != "developer"@,
        "assistant"@ != "developer"@,
{
    reveal_strlit("user");
    reveal_strlit("assistant");
    reveal_strlit("developer");
    assert("user"@.len() == 4 && "assistant"@.len() == 9 && "developer"@.len() == 9);
    assert("assistant"@[0] == 'a' && "developer"@[0] == 'd');
}

proof fn lemma_keys()
    ensures
        "role"@ != "content"@,
        "role"@ != "tool_calls"@,
        "content"@ != "tool_calls"@,
        "role"@ != "tool_call_id"@,
        "content"@ != "tool_call_id"@,
{
    reveal_strlit("role");
    reveal_strlit("content");
    reveal_strlit("tool_calls");
    reveal_strlit("tool_call_id");
    assert("role"@.len() == 4 && "content"@.len() == 7 && "tool_calls"@.len() == 10
        && "tool_call_id"@.len() == 12);
}

/// One more item of a conversation is one more step of the reading.
proof fn lemma_one_more(items: Seq<ResponseItem>, item: ResponseItem)
    ensures
        after_items(items.push(item)) == after_item(after_items(items), item),
{
    assert(items.push(item).drop_last() =~= items);
}

/// Calls wait in the reading exactly where they wait among the items.
proof fn lemma_calls_wait(items: Seq<ResponseItem>)
    ensures
        after_items(items).calls.len() > 0 <==> calls_wait(items),
    decreases items.len(),
{
    lemma_roles();
    if items.len() > 0 {
        let before = items.drop_last();
        let item = items.last();
        lemma_calls_wait(before);
        assert(forall|k: int| 0 <= k < before.len() ==> before[k] == items[k]);
        if is_call(item) {
            assert(is_call(items[items.len() - 1]));
            assert(calls_wait(items));
        } else if ends_the_wait(item) {
            assert(ends_the_wait(items[items.len() - 1]));
            if calls_wait(items) {
                let i = choose|i: int|
                    0 <= i < items.len() && #[trigger] is_call(items[i]) && forall|j: int|
                        i < j < items.len() ==> !#[trigger] ends_the_wait(items[j]);
                assert(i == items.len() - 1);
            }
        } else {
            if calls_wait(before) {
                let i = choose|i: int|
                    0 <= i < before.len() && #[trigger] is_call(before[i]) && forall|j: int|
                        i < j < before.len() ==> !#[trigger] ends_the_wait(before[j]);
                assert(is_call(items[i]));
                assert forall|j: int| i < j < items.len() implies !#[trigger] ends_the_wait(
                    items[j],
                ) by {
                    if j < before.len() {
                        assert(!ends_the_wait(before[j]));
                    }
                }
            }
            if calls_wait(items) {
                let i = choose|i: int|
                    0 <= i < items.len() && #[trigger] is_call(items[i]) && forall|j: int|
                        i < j < items.len() ==> !#[trigger] ends_the_wait(items[j]);
                assert(i < before.len());
                assert(is_call(before[i]));
                assert forall|j: int| i < j < before.len() implies !#[trigger] ends_the_wait(
                    before[j],
                ) by {
                    assert(!ends_the_wait(items[j]));
                }
            }
        }
    }
}

// ---------------------------------------------------------------------------------------------
// One more item
// ---------------------------------------------------------------------------------------------

/// A conversation without items has no messages.
pub proof fn law_no_items_give_no_messages()
    ensures
        chat_messages(Seq::empty()) == Seq::<JsonView>::empty(),
{
    let none = Seq::<ResponseItem>::empty();
    assert(after_items(none) == fresh());
}

/// An answer behind a conversation is one message more: behind everything else, with the text of the
/// answer and the id of the call.
pub proof fn law_answer_is_one_message_more(
    items: Seq<ResponseItem>,
    answer: ResponseItem,
    call_id: String,
    output: FunctionCallOutputPayload,
)
    requires
        answer == (ResponseItem::FunctionCallOutput { call_id, output }) || answer == (
        ResponseItem::CustomToolCallOutput { call_id, output }),
    ensures
        ({
            let text = if output.text is Some {
                output.text->Some_0@
            } else if output.content_items_text is Some {
                output.content_items_text->Some_0@
            } else {
                output.displayed@
            };
            chat_messages(items.push(answer)) == chat_messages(items).push(
                JsonView::Object(
                    map![
                        "role"@ => JsonView::Text("tool"@),
                        "content"@ => JsonView::Text(text),
                        "tool_call_id"@ => JsonView::Text(call_id@),
                    ],
                ),
            )
        }),
{
    lemma_one_more(items, answer);
}

/// What the user or the developer says behind a conversation is one message of the user more, behind
/// everything else; where nothing is said, no message comes.
pub proof fn law_user_speaks_last(items: Seq<ResponseItem>, said: ResponseItem)
    requires
        said matches ResponseItem::Message { role, contextual, .. } && (role@ == "developer"@ || (
        role@ == "user"@ && !contextual)),
    ensures
        chat_messages(items.push(said)) == match message_content(said->Message_content@) {
            None => chat_messages(items),
            Some(content) => chat_messages(items).push(
                JsonView::Object(
                    map!["role"@ => JsonView::Text("user"@), "content"@ => content],
                ),
            ),
        },
{
    lemma_roles();
    lemma_one_more(items, said);
}

/// Where no calls wait, what the assistant says is one message of the assistant more; an empty text is
/// no message.
pub proof fn law_assistant_speaks_last(
    items: Seq<ResponseItem>,
    said: ResponseItem,
    content: JsonView,
)
    requires
        said matches ResponseItem::Message { role, .. } && role@ == "assistant"@,
        message_content(said->Message_content@) == Some(content),
        !calls_wait(items),
    ensures
        content == JsonView::Text(Seq::empty()) ==> chat_messages(items.push(said))
            == chat_messages(items),
        content != JsonView::Text(Seq::empty()) ==> chat_messages(items.push(said))
            == chat_messages(items).push(
            JsonView::Object(
                map!["role"@ => JsonView::Text("assistant"@), "content"@ => content],
            ),
        ),
{
    lemma_roles();
    lemma_one_more(items, said);
    lemma_calls_wait(items);
    if content is Text && content->Text_0.len() == 0 {
        assert(content->Text_0 =~= Seq::empty());
    }
}

/// Where the assistant says nothing at all, no message comes and none is changed.
pub proof fn law_silent_assistant_changes_nothing(items: Seq<ResponseItem>, said: ResponseItem)
    requires
        said matches ResponseItem::Message { role, .. } && role@ == "assistant"@,
        message_content(said->Message_content@) is None,
    ensures
        chat_messages(items.push(said)) == chat_messages(items),
{
    lemma_roles();
    lemma_one_more(items, said);
}

/// Context that the program put there, a message of any other role, and an item that is neither a
/// message nor a call nor an answer add nothing and change nothing.
pub proof fn law_other_items_change_nothing(items: Seq<ResponseItem>, item: ResponseItem)
    requires
        ({
            ||| item matches ResponseItem::Message { role, contextual, .. } && role@ == "user"@
                && contextual
            ||| item matches ResponseItem::Message { role, .. } && role@ != "assistant"@ && role@
                != "user"@ && role@ != "developer"@
            ||| item is ToolSearchCall || item is ToolSearchOutput || item is Reasoning
            ||| item is WebSearchCall || item is ImageGenerationCall || item is GhostSnapshot
            ||| item is Compaction || item is Other
        }),
    ensures
        chat_messages(items.push(item)) == chat_messages(items),
{
    lemma_roles();
    lemma_one_more(items, item);
}

/// Where calls wait, the last message is the one that makes them.
pub proof fn law_waiting_calls_are_the_last_message(items: Seq<ResponseItem>)
    requires
        calls_wait(items),
    ensures
        chat_messages(items).len() > 0,
        chat_messages(items).last() matches JsonView::Object(fields) && {
            &&& fields.dom() == set!["role"@, "content"@, "tool_calls"@]
            &&& fields["role"@] == JsonView::Text("assistant"@)
            &&& fields["content"@] is Text
            &&& fields["tool_calls"@] is Array
            &&& fields["tool_calls"@]->Array_0.len() > 0
        },
{
    lemma_calls_wait(items);
    lemma_keys();
    let c = after_items(items);
    let last = chat_messages(items).last();
    assert(last == crate::conversation::calls_message(c.content, c.calls));
    assert(last->Object_0.dom() =~= set!["role"@, "content"@, "tool_calls"@]);
}

/// What the assistant says while calls wait joins the text of the message that makes them, on a line
/// of its own, and changes nothing else. What is not one text joins as its JSON.
pub proof fn law_assistant_speaks_while_calls_wait(
    items: Seq<ResponseItem>,
    said: ResponseItem,
    content: JsonView,
)
    requires
        said matches ResponseItem::Message { role, .. } && role@ == "assistant"@,
        message_content(said->Message_content@) == Some(content),
        calls_wait(items),
    ensures
        ({
            let text = if content is Text {
                content->Text_0
            } else {
                json_text(content)
            };
            let fields = chat_messages(items).last()->Object_0;
            let so_far = fields["content"@]->Text_0;
            let joined = if text.len() == 0 {
                so_far
            } else if so_far.len() == 0 {
                text
            } else {
                so_far + seq!['\n'] + text
            };
            chat_messages(items.push(said)) == chat_messages(items).drop_last().push(
                JsonView::Object(fields.insert("content"@, JsonView::Text(joined))),
            )
        }),
{
    lemma_roles();
    lemma_keys();
    lemma_one_more(items, said);
    lemma_calls_wait(items);
    let c = after_items(items);
    let after = after_item(c, said);
    let text = content_as_text(content);
    assert(chat_messages(items).drop_last() =~= c.messages);
    let fields = chat_messages(items).last()->Object_0;
    assert(c.content.push('\n') + text =~= c.content + seq!['\n'] + text);
    assert(with_text(c.content, text).len() == 0 ==> with_text(c.content, text) =~= c.content);
    assert(after.calls == c.calls);
    assert(fields.insert("content"@, JsonView::Text(after.content))
        =~= crate::conversation::calls_message(after.content, after.calls)->Object_0);
    assert(chat_messages(items.push(said)) =~= c.messages.push(
        JsonView::Object(fields.insert("content"@, JsonView::Text(after.content))),
    ));
}

/// A call behind a conversation goes out with the calls that wait, behind them; where none wait, it
/// begins a message of the assistant without text. Nothing else changes.
pub proof fn law_call_joins_the_waiting_calls(
    items: Seq<ResponseItem>,
    item: ResponseItem,
    call: JsonView,
)
    requires
        item_call(item) == Some(call),
    ensures
        !calls_wait(items) ==> chat_messages(items.push(item)) == chat_messages(items).push(
            JsonView::Object(
                map![
                    "role"@ => JsonView::Text("assistant"@),
                    "content"@ => JsonView::Text(Seq::empty()),
                    "tool_calls"@ => JsonView::Array(seq![call]),
                ],
            ),
        ),
        calls_wait(items) ==> ({
            let fields = chat_messages(items).last()->Object_0;
            chat_messages(items.push(item)) == chat_messages(items).drop_last().push(
                JsonView::Object(
                    fields.insert(
                        "tool_calls"@,
                        JsonView::Array(fields["tool_calls"@]->Array_0.push(call)),
                    ),
                ),
            )
        }),
{
    lemma_keys();
    lemma_one_more(items, item);
    lemma_calls_wait(items);
    law_no_text_waits_without_a_call(items);
    let c = after_items(items);
    if calls_wait(items) {
        let fields = chat_messages(items).last()->Object_0;
        assert(chat_messages(items).drop_last() =~= c.messages);
        assert(fields.insert("tool_calls"@, JsonView::Array(c.calls.push(call)))
            =~= crate::conversation::calls_message(c.content, c.calls.push(call))->Object_0);
    } else {
        assert(c.calls =~= Seq::empty());
        assert(c.content =~= Seq::empty());
        assert(c.calls.push(call) =~= seq![call]);
    }
}

/// The call of a function, field by field.
pub proof fn law_function_call_is_handed_on(name: String, arguments: String, call_id: String)
    ensures
        item_call(ResponseItem::FunctionCall { name, arguments, call_id }) == Some(
            JsonView::Object(
                map![
                    "type"@ => JsonView::Text("function"@),
                    "id"@ => JsonView::Text(call_id@),
                    "function"@ => JsonView::Object(
                        map![
                            "name"@ => JsonView::Text(name@),
                            "arguments"@ => JsonView::Text(arguments@),
                        ],
                    ),
                ],
            ),
        ),
{
}

/// The call of a custom tool is that of a function whose arguments are the JSON of the input.
pub proof fn law_custom_call_is_handed_on(name: String, input: String, call_id: String)
    ensures
        item_call(ResponseItem::CustomToolCall { call_id, name, input }) == Some(
            JsonView::Object(
                map![
                    "type"@ => JsonView::Text("function"@),
                    "id"@ => JsonView::Text(call_id@),
                    "function"@ => JsonView::Object(
                        map![
                            "name"@ => JsonView::Text(name@),
                            "arguments"@ => JsonView::Text(
                                json_text(
                                    JsonView::Object(map!["input"@ => JsonView::Text(input@)]),
                                ),
                            ),
                        ],
                    ),
                ],
            ),
        ),
{
}

/// The call of the local shell is that of the function `bash` with the command and the timeout in whole
/// seconds, rounded down. It goes by its call id, or else by its id.
pub proof fn law_shell_call_is_handed_on(
    id: Option<String>,
    call_id: Option<String>,
    command: Vec<String>,
    timeout_ms: Option<u64>,
    seconds: nat,
)
    requires
        id is Some || call_id is Some,
        timeout_ms is Some ==> seconds * 1000 <= timeout_ms->Some_0 < seconds * 1000 + 1000,
    ensures
        item_call(
            ResponseItem::LocalShellCall {
                id,
                call_id,
                action: LocalShellAction::Exec(LocalShellExecAction { command, timeout_ms }),
            },
        ) == Some(
            JsonView::Object(
                map![
                    "type"@ => JsonView::Text("function"@),
                    "id"@ => JsonView::Text(
                        if call_id is Some {
                            call_id->Some_0@
                        } else {
                            id->Some_0@
                        },
                    ),
                    "function"@ => JsonView::Object(
                        map![
                            "name"@ => JsonView::Text("bash"@),
                            "arguments"@ => JsonView::Text(
                                json_text(
                                    JsonView::Object(
                                        map![
                                            "command"@ => JsonView::Array(
                                                Seq::new(
                                                    command@.len(),
                                                    |i: int| JsonView::Text(command@[i]@),
                                                ),
                                            ),
                                            "timeout"@ => if timeout_ms is Some {
                                                JsonView::Number(seconds)
                                            } else {
                                                JsonView::Null
                                            },
                                        ],
                                    ),
                                ),
                            ),
                        ],
                    ),
                ],
            ),
        ),
{
    if timeout_ms is Some {
        assert(timeout_ms->Some_0 / 1000 == seconds);
    }
    assert(crate::tools::text_views(command@) =~= Seq::new(
        command@.len(),
        |i: int| JsonView::Text(command@[i]@),
    ));
}

/// A conversation cannot be sent only where a call of the local shell has neither id.
pub proof fn law_only_a_shell_call_without_ids_is_refused(item: ResponseItem)
    ensures
        lacks_call_id(item) <==> (item matches ResponseItem::LocalShellCall { id, call_id, .. }
            && id is None && call_id is None),
{
}

/// A call is made by exactly the items that are calls.
pub proof fn law_calls_make_calls(item: ResponseItem)
    ensures
        item_call(item) is Some <==> is_call(item),
{
}

// ---------------------------------------------------------------------------------------------
// Two conversations
// ---------------------------------------------------------------------------------------------

proof fn lemma_messages_only_grow(c: Conversation, item: ResponseItem)
    ensures
        c.messages.is_prefix_of(after_item(c, item).messages),
        c.messages.is_prefix_of(flushed(c).messages),
{
}

proof fn lemma_prefix(front: Seq<ResponseItem>, behind: Seq<ResponseItem>)
    ensures
        after_items(front).messages.is_prefix_of(after_items(front + behind).messages),
    decreases behind.len(),
{
    if behind.len() == 0 {
        assert(front + behind =~= front);
    } else {
        lemma_prefix(front, behind.drop_last());
        assert((front + behind).drop_last() =~= front + behind.drop_last());
        assert((front + behind).last() == behind.last());
        lemma_messages_only_grow(after_items(front + behind.drop_last()), behind.last());
        let a = after_items(front).messages;
        let b = after_items(front + behind.drop_last()).messages;
        let c = after_items(front + behind).messages;
        assert(a =~= c.subrange(0, a.len() as int));
    }
}

/// An answer stands behind the calls that were made before it, and before everything that comes later:
/// its message follows the messages of the items before it, these make exactly the calls of those items,
/// and they give exactly the answers of those items.
pub proof fn law_answer_stands_behind_its_call(
    before: Seq<ResponseItem>,
    answer: ResponseItem,
    behind: Seq<ResponseItem>,
    call_id: String,
    output: FunctionCallOutputPayload,
)
    requires
        answer == (ResponseItem::FunctionCallOutput { call_id, output }) || answer == (
        ResponseItem::CustomToolCallOutput { call_id, output }),
    ensures
        ({
            let all = chat_messages(before.push(answer) + behind);
            let at = chat_messages(before).len() as int;
            &&& at < all.len()
            &&& all[at] matches JsonView::Object(fields) && fields["role"@] == JsonView::Text(
                "tool"@,
            ) && fields["tool_call_id"@] == JsonView::Text(call_id@)
            &&& all.subrange(0, at) == chat_messages(before)
            &&& calls_made(all.subrange(0, at)) == item_calls(before)
            &&& answers_among(all.subrange(0, at)) == item_answers(before)
        }),
{
    lemma_keys();
    let all = chat_messages(before.push(answer) + behind);
    let at = chat_messages(before).len() as int;
    lemma_one_more(before, answer);
    lemma_prefix(before.push(answer), behind);
    lemma_messages_only_grow(after_items(before.push(answer) + behind), answer);
    let there = after_items(before.push(answer)).messages;
    assert(there == chat_messages(before).push(
        crate::conversation::tool_message(output_text(output), call_id@),
    ));
    let whole = after_items(before.push(answer) + behind).messages;
    assert(there[at] == whole[at]);
    assert(whole[at] == all[at]);
    assert(all.subrange(0, at) =~= chat_messages(before)) by {
        assert forall|k: int| 0 <= k < at implies all[k] == chat_messages(before)[k] by {
            assert(there[k] == whole[k]);
            assert(whole[k] == all[k]);
        }
    }
    law_every_call_goes_out_once(before);
    law_every_answer_goes_out_once(before);
}

proof fn lemma_join(front: Seq<ResponseItem>, behind: Seq<ResponseItem>)
    requires
        after_items(front).calls.len() == 0,
        after_items(front).content.len() == 0,
    ensures
        after_items(front + behind) == (Conversation {
            messages: after_items(front).messages + after_items(behind).messages,
            calls: after_items(behind).calls,
            content: after_items(behind).content,
        }),
    decreases behind.len(),
{
    if behind.len() == 0 {
        assert(front + behind =~= front);
        let c = after_items(front);
        assert(c.messages + fresh().messages =~= c.messages);
        assert(c.calls =~= fresh().calls);
        assert(c.content =~= fresh().content);
        assert(after_items(behind) == fresh());
        assert(after_items(front + behind) =~= (Conversation {
            messages: c.messages + fresh().messages,
            calls: fresh().calls,
            content: fresh().content,
        }));
    } else {
        let rest = behind.drop_last();
        lemma_join(front, rest);
        assert((front + behind).drop_last() =~= front + rest);
        assert((front + behind).last() == behind.last());
        let head = after_items(front).messages;
        let c = after_items(rest);
        let both = after_items(front + rest);
        let item = behind.last();
        assert(flushed(both).messages =~= head + flushed(c).messages);
        assert(forall|m: JsonView|
            (head + flushed(c).messages).push(m) =~= head + #[trigger] flushed(c).messages.push(m));
        assert(forall|m: JsonView|
            (head + c.messages).push(m) =~= head + #[trigger] c.messages.push(m));
        assert(after_item(both, item).messages =~= head + after_item(c, item).messages);
        assert(after_item(both, item).calls =~= after_item(c, item).calls);
        assert(after_item(both, item).content =~= after_item(c, item).content);
    }
}

/// Where no calls wait, what comes later does not touch the messages before: the messages of the whole
/// are those of the first part and those of the second.
pub proof fn law_conversations_join_where_no_calls_wait(
    first: Seq<ResponseItem>,
    second: Seq<ResponseItem>,
)
    requires
        !calls_wait(first),
    ensures
        chat_messages(first + second) == chat_messages(first) + chat_messages(second),
{
    lemma_calls_wait(first);
    law_no_text_waits_without_a_call(first);
    lemma_join(first, second);
    let a = after_items(first);
    let b = after_items(second);
    assert(flushed(after_items(first + second)).messages =~= a.messages + flushed(b).messages);
}

// ---------------------------------------------------------------------------------------------
// What a message says
// ---------------------------------------------------------------------------------------------

/// The texts of a message are those of its pieces, in order; an image has none.
pub proof fn law_texts_of_a_message_are_those_of_its_pieces(
    pieces: Seq<ContentItem>,
    text: String,
    image_url: String,
)
    ensures
        content_texts(Seq::empty()) == Seq::<Seq<char>>::empty(),
        content_texts(pieces.push(ContentItem::InputText { text })) == content_texts(pieces).push(
            text@,
        ),
        content_texts(pieces.push(ContentItem::OutputText { text })) == content_texts(pieces).push(
            text@,
        ),
        content_texts(pieces.push(ContentItem::InputImage { image_url })) == content_texts(pieces),
{
    assert(pieces.push(ContentItem::InputText { text }).drop_last() =~= pieces);
    assert(pieces.push(ContentItem::OutputText { text }).drop_last() =~= pieces);
    assert(pieces.push(ContentItem::InputImage { image_url }).drop_last() =~= pieces);
}

/// A message without texts says nothing, one with a single text says that text, and one with several
/// says each of them as a part.
pub proof fn law_message_says_its_texts(content: Seq<ContentItem>, i: int)
    ensures
        content_texts(content).len() == 0 <==> message_content(content) is None,
        content_texts(content).len() == 1 ==> message_content(content) == Some(
            JsonView::Text(content_texts(content)[0]),
        ),
        content_texts(content).len() > 1 ==> {
            &&& message_content(content) matches Some(JsonView::Array(parts))
            &&& parts.len() == content_texts(content).len()
            &&& 0 <= i < parts.len() ==> parts[i] == JsonView::Object(
                map![
                    "type"@ => JsonView::Text("text"@),
                    "text"@ => JsonView::Text(content_texts(content)[i]),
                ],
            )
        },
{
}

/// What a message says counts as its text where it is one, and as its JSON otherwise.
pub proof fn law_message_as_text(content: JsonView)
    ensures
        content_as_text(content) == if content is Text {
            content->Text_0
        } else {
            json_text(content)
        },
{
}

/// A text joins another on a line of its own; an empty one adds nothing.
pub proof fn law_text_joins_on_a_line_of_its_own(output: Seq<char>, text: Seq<char>)
    ensures
        with_text(output, Seq::empty()) == output,
        with_text(Seq::empty(), text) == text,
        output.len() > 0 && text.len() > 0 ==> with_text(output, text) == output + seq!['\n']
            + text,
{
    assert(text.len() == 0 ==> text =~= Seq::empty());
    assert(output.push('\n') + text =~= output + seq!['\n'] + text);
}

/// An answer is its text, or else the text of its content items, or else what is displayed.
pub proof fn law_answer_text(output: FunctionCallOutputPayload)
    ensures
        output_text(output) == if output.text is Some {
            output.text->Some_0@
        } else if output.content_items_text is Some {
            output.content_items_text->Some_0@
        } else {
            output.displayed@
        },
{
}

/// A call names its id, its function and the arguments.
pub proof fn law_call_field_by_field(call_id: Seq<char>, name: Seq<char>, arguments: Seq<char>)
    ensures
        tool_call(call_id, name, arguments) == JsonView::Object(
            map![
                "type"@ => JsonView::Text("function"@),
                "id"@ => JsonView::Text(call_id),
                "function"@ => JsonView::Object(
                    map![
                        "name"@ => JsonView::Text(name),
                        "arguments"@ => JsonView::Text(arguments),
                    ],
                ),
            ],
        ),
{
}

/// Sending the waiting calls out makes one message of them and of the text between them, and leaves
/// nothing waiting; where none wait, it changes nothing.
pub proof fn law_waiting_calls_go_out_together(
    messages: Seq<Json>,
    calls: Seq<Json>,
    content: Seq<char>,
)
    ensures
        ({
            let before = read_so_far(messages, calls, content);
            &&& before.messages == array_view(messages)
            &&& before.calls == array_view(calls)
            &&& before.content == content
            &&& array_view(calls).len() == 0 ==> flushed(before) == before
            &&& array_view(calls).len() > 0 ==> {
                &&& flushed(before).messages == array_view(messages).push(
                    JsonView::Object(
                        map![
                            "role"@ => JsonView::Text("assistant"@),
                            "content"@ => JsonView::Text(content),
                            "tool_calls"@ => JsonView::Array(array_view(calls)),
                        ],
                    ),
                )
                &&& flushed(before).calls.len() == 0
                &&& flushed(before).content.len() == 0
            }
        }),
{
}

} // verus!
