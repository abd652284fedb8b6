//! The conversation side of the assistant: chat messages with their optional
//! annotations, and the bounded conversation window that builds each outgoing
//! prompt and prunes the stored history after a completed exchange.
//!
//! The window never stores the synthesized system message: every prompt
//! prepends a fresh one, followed by at most the last five stored messages
//! and the new user turn. After a reply is folded back in, the stored
//! history is clamped to the newest ten messages.

use vstd::prelude::*;
use vstd::string::StringExecFns;

verus! {

/// Number of stored messages included in an outgoing prompt.
pub const CONTEXT_LIMIT: usize = 5;

/// Number of messages the window retains after a completed exchange.
pub const WINDOW_LIMIT: usize = 10;

/// Model name sent with every chat request.
pub const CHAT_MODEL: &'static str = "granite3-moe";

/// Instructions prepended to every prompt as the synthesized system message.
pub const SYSTEM_PROMPT: &'static str = "You are an AI assistant that follows a strict, structured thinking process on every response. Never deviate from this process.

PRIMARY DIRECTIVES:
1. Always analyze context before facts
2. Always check facts before searching
3. Always format responses consistently
4. Always learn from corrections
5. Never skip steps or combine them

RESPONSE STRUCTURE:
Each response must follow this exact format:

CONTEXT_CHECK:
[Previous conversation context I found relevant to this query]
[If none: \"No relevant context found in our conversation\"]

FACTS_CHECK:
[Facts I found in my database relevant to this query]
[If none: \"No relevant facts found in database\"]

SEARCH_CHECK:
[If search keywords detected: \"Performing web search for: <specific_search_terms>\"]
[If results available: \"Found <n> relevant results:\"]
[If no results: \"No relevant search results found\"]
[If no search needed: \"No search needed for this query\"]

REASONING:
[Step by step breakdown of how I'm using this information]
[Must include how I'm combining context, facts, and search]
[Must explain any conflicts between sources]

RESPONSE:
[My actual response to the user's query based on all information]

LEARNING:
[What new information should be saved to facts]
[What context was most useful]
[What searches were most helpful]";

/// A search result attached to a message's annotations.
pub struct SearchResult {
    pub url: String,
    pub title: String,
    pub summary: String,
    pub reading_time: u32,
    pub favicon_url: Option<String>,
}

pub ghost struct SearchResultView {
    pub url: Seq<char>,
    pub title: Seq<char>,
    pub summary: Seq<char>,
    pub reading_time: u32,
    pub favicon_url: Option<Seq<char>>,
}

impl View for SearchResult {
    type V = SearchResultView;

    open spec fn view(&self) -> SearchResultView {
        SearchResultView {
            url: self.url@,
            title: self.title@,
            summary: self.summary@,
            reading_time: self.reading_time,
            favicon_url: match self.favicon_url {
                Some(f) => Some(f@),
                None => None,
            },
        }
    }
}

impl DeepView for SearchResult {
    type V = SearchResultView;

    open spec fn deep_view(&self) -> SearchResultView {
        self.view()
    }
}

impl Clone for SearchResult {
    fn clone(&self) -> (r: Self)
        ensures
            r@ == self@,
    {
        SearchResult {
            url: self.url.clone(),
            title: self.title.clone(),
            summary: self.summary.clone(),
            reading_time: self.reading_time,
            favicon_url: match &self.favicon_url {
                Some(f) => Some(f.clone()),
                None => None,
            },
        }
    }
}

/// Structured annotations a message may carry: the assistant's bookkeeping
/// notes and any search results attached to the turn.
pub struct MessageMetadata {
    pub context_check: Option<String>,
    pub facts_check: Option<String>,
    pub search_check: Option<String>,
    pub reasoning: Option<String>,
    pub learning: Option<String>,
    pub search_results: Option<Vec<SearchResult>>,
}

pub ghost struct MessageMetadataView {
    pub context_check: Option<Seq<char>>,
    pub facts_check: Option<Seq<char>>,
    pub search_check: Option<Seq<char>>,
    pub reasoning: Option<Seq<char>>,
    pub learning: Option<Seq<char>>,
    pub search_results: Option<Seq<SearchResultView>>,
}

pub open spec fn opt_string_view(o: Option<String>) -> Option<Seq<char>> {
    match o {
        Some(s) => Some(s@),
        None => None,
    }
}

impl View for MessageMetadata {
    type V = MessageMetadataView;

    open spec fn view(&self) -> MessageMetadataView {
        MessageMetadataView {
            context_check: opt_string_view(self.context_check),
            facts_check: opt_string_view(self.facts_check),
            search_check: opt_string_view(self.search_check),
            reasoning: opt_string_view(self.reasoning),
            learning: opt_string_view(self.learning),
            search_results: match self.search_results {
                Some(v) => Some(v.deep_view()),
                None => None,
            },
        }
    }
}

fn clone_opt_string(o: &Option<String>) -> (r: Option<String>)
    ensures
        opt_string_view(r) == opt_string_view(*o),
{
    match o {
        Some(s) => Some(s.clone()),
        None => None,
    }
}

fn clone_results(v: &Vec<SearchResult>) -> (r: Vec<SearchResult>)
    ensures
        r.deep_view() == v.deep_view(),
{
    let mut r: Vec<SearchResult> = Vec::new();
    let mut i: usize = 0;
    while i < v.len()
        invariant
            0 <= i <= v@.len(),
            r@.len() == i,
            forall|j: int| 0 <= j < i ==> (#[trigger] r@[j])@ == v@[j]@,
        decreases v@.len() - i,
    {
        r.push(v[i].clone());
        i = i + 1;
    }
    proof {
        assert(r.deep_view() =~= v.deep_view());
    }
    r
}

impl Clone for MessageMetadata {
    fn clone(&self) -> (r: Self)
        ensures
            r@ == self@,
    {
        MessageMetadata {
            context_check: clone_opt_string(&self.context_check),
            facts_check: clone_opt_string(&self.facts_check),
            search_check: clone_opt_string(&self.search_check),
            reasoning: clone_opt_string(&self.reasoning),
            learning: clone_opt_string(&self.learning),
            search_results: match &self.search_results {
                Some(v) => Some(clone_results(v)),
                None => None,
            },
        }
    }
}

/// One turn of the conversation: a role, its text, and optional annotations.
pub struct ChatMessage {
    pub role: String,
    pub content: String,
    pub metadata: Option<MessageMetadata>,
}

pub ghost struct ChatMessageView {
    pub role: Seq<char>,
    pub content: Seq<char>,
    pub metadata: Option<MessageMetadataView>,
}

impl View for ChatMessage {
    type V = ChatMessageView;

    open spec fn view(&self) -> ChatMessageView {
        ChatMessageView {
            role: self.role@,
            content: self.content@,
            metadata: match self.metadata {
                Some(m) => Some(m@),
                None => None,
            },
        }
    }
}

impl Clone for ChatMessage {
    fn clone(&self) -> (r: Self)
        ensures
            r@ == self@,
    {
        ChatMessage {
            role: self.role.clone(),
            content: self.content.clone(),
            metadata: match &self.metadata {
                Some(m) => Some(m.clone()),
                None => None,
            },
        }
    }
}

/// The message list of one chat request, as sent to the inference server.
pub struct ChatRequest {
    pub model: String,
    pub messages: Vec<ChatMessage>,
    pub stream: bool,
}

/// One streamed record of the inference server's reply.
pub struct ChatResponse {
    pub model: String,
    pub message: ChatMessage,
    pub done: bool,
}

pub open spec fn msgs_view(s: Seq<ChatMessage>) -> Seq<ChatMessageView> {
    s.map_values(|m: ChatMessage| m@)
}

pub open spec fn system_message_view() -> ChatMessageView {
    ChatMessageView { role: "system"@, content: SYSTEM_PROMPT@, metadata: None }
}

pub open spec fn user_message_view(content: Seq<char>) -> ChatMessageView {
    ChatMessageView { role: "user"@, content, metadata: None }
}

pub open spec fn empty_metadata_view() -> MessageMetadataView {
    MessageMetadataView {
        context_check: None,
        facts_check: None,
        search_check: None,
        reasoning: None,
        learning: None,
        search_results: None,
    }
}

pub open spec fn assistant_message_view(content: Seq<char>) -> ChatMessageView {
    ChatMessageView { role: "assistant"@, content, metadata: Some(empty_metadata_view()) }
}

/// The synthesized system message that opens every prompt.
pub fn create_system_message() -> (m: ChatMessage)
    ensures
        m@ == system_message_view(),
{
    ChatMessage {
        role: String::from_str("system"),
        content: String::from_str(SYSTEM_PROMPT),
        metadata: None,
    }
}

/// Wrap a user turn as a message without annotations.
pub fn create_user_message(content: String) -> (m: ChatMessage)
    ensures
        m@ == user_message_view(content@),
{
    ChatMessage { role: String::from_str("user"), content, metadata: None }
}

/// Wrap a completed reply as an assistant message with an empty annotation
/// envelope.
pub fn create_assistant_message(content: String) -> (m: ChatMessage)
    ensures
        m@ == assistant_message_view(content@),
{
    ChatMessage {
        role: String::from_str("assistant"),
        content,
        metadata: Some(
            MessageMetadata {
                context_check: None,
                facts_check: None,
                search_check: None,
                reasoning: None,
                learning: None,
                search_results: None,
            },
        ),
    }
}

/// The stored messages an outgoing prompt carries: the newest
/// `CONTEXT_LIMIT` of them, or all of them if fewer are stored.
pub open spec fn context_of(h: Seq<ChatMessageView>) -> Seq<ChatMessageView> {
    if h.len() <= CONTEXT_LIMIT {
        h
    } else {
        h.skip(h.len() - CONTEXT_LIMIT)
    }
}

/// The full message list of a prompt: one synthesized system message, the
/// bounded recent history, and the new user turn.
pub open spec fn prompt_spec(h: Seq<ChatMessageView>, new_text: Seq<char>) -> Seq<
    ChatMessageView,
> {
    seq![system_message_view()] + context_of(h) + seq![user_message_view(new_text)]
}

/// The stored history after a completed exchange: unchanged on an empty
/// reply; otherwise the reply is appended as an assistant message and the
/// oldest entries beyond `WINDOW_LIMIT` are dropped.
pub open spec fn finalized_spec(h: Seq<ChatMessageView>, reply: Seq<char>) -> Seq<
    ChatMessageView,
> {
    if reply.len() == 0 {
        h
    } else {
        let grown = h.push(assistant_message_view(reply));
        if grown.len() > WINDOW_LIMIT {
            grown.skip(grown.len() - WINDOW_LIMIT)
        } else {
            grown
        }
    }
}

/// The ordered history of one chat session, bounded after each exchange.
pub struct ConversationWindow {
    pub messages: Vec<ChatMessage>,
}

impl ConversationWindow {
    pub fn new() -> (w: Self)
        ensures
            w.messages@.len() == 0,
    {
        ConversationWindow { messages: Vec::new() }
    }

    /// Build the outgoing message list for a new user turn. Pure projection:
    /// the stored history is not touched.
    pub fn build_prompt(&self, new_text: String) -> (r: Vec<ChatMessage>)
        ensures
            msgs_view(r@) == prompt_spec(msgs_view(self.messages@), new_text@),
    {
        let ghost h = msgs_view(self.messages@);
        let mut r: Vec<ChatMessage> = Vec::new();
        r.push(create_system_message());
        let len = self.messages.len();
        let start = if len > CONTEXT_LIMIT {
            len - CONTEXT_LIMIT
        } else {
            0
        };
        let mut i = start;
        while i < len
            invariant
                start <= i <= len,
                len == self.messages@.len(),
                start == if len > CONTEXT_LIMIT {
                    (len - CONTEXT_LIMIT) as int
                } else {
                    0int
                },
                r@.len() == 1 + i - start,
                r@[0]@ == system_message_view(),
                forall|j: int|
                    0 <= j < i - start ==> (#[trigger] r@[1 + j])@ == self.messages@[start + j]@,
            decreases len - i,
        {
            r.push(self.messages[i].clone());
            i = i + 1;
        }
        let ghost mid = r@;
        r.push(create_user_message(new_text));
        proof {
            assert forall|j: int| 0 <= j < r@.len() implies (#[trigger] msgs_view(r@)[j])
                == prompt_spec(h, new_text@)[j] by {
                if j == 0 {
                } else if j < r@.len() - 1 {
                    assert(r@[j] == mid[j]);
                    assert(mid[1 + (j - 1)]@ == self.messages@[start + (j - 1)]@);
                    assert(r@[j]@ == self.messages@[start + j - 1]@);
                    assert(prompt_spec(h, new_text@)[j] == context_of(h)[j - 1]);
                    if h.len() > CONTEXT_LIMIT {
                        assert(context_of(h)[j - 1] == h[h.len() - CONTEXT_LIMIT + j - 1]);
                    }
                } else {
                }
            }
            assert(msgs_view(r@) =~= prompt_spec(h, new_text@));
        }
        r
    }

    /// Append a message to the stored history; nothing is pruned here.
    pub fn append(&mut self, message: ChatMessage)
        ensures
            final(self).messages@ == old(self).messages@.push(message),
    {
        self.messages.push(message);
    }

    /// Fold a completed reply back into the history: a no-op on an empty
    /// reply, otherwise append it as an assistant message and drop the
    /// oldest entries beyond `WINDOW_LIMIT`.
    pub fn finalize(&mut self, reply: String)
        ensures
            msgs_view(final(self).messages@) == finalized_spec(
                msgs_view(old(self).messages@),
                reply@,
            ),
    {
        let ghost h = msgs_view(old(self).messages@);
        if reply.as_str().is_empty() {
            proof {
                assert(msgs_view(self.messages@) =~= finalized_spec(h, reply@));
            }
            return ;
        }
        let ghost reply_view = reply@;
        self.messages.push(create_assistant_message(reply));
        let ghost grown = msgs_view(self.messages@);
        proof {
            assert(grown =~= h.push(assistant_message_view(reply_view)));
        }
        if self.messages.len() > WINDOW_LIMIT {
            let start = self.messages.len() - WINDOW_LIMIT;
            let mut kept: Vec<ChatMessage> = Vec::new();
            let mut i = start;
            while i < self.messages.len()
                invariant
                    start <= i <= self.messages@.len(),
                    start == self.messages@.len() - WINDOW_LIMIT,
                    kept@.len() == i - start,
                    forall|j: int|
                        0 <= j < i - start ==> (#[trigger] kept@[j])@ == self.messages@[start
                            + j]@,
                    grown == msgs_view(self.messages@),
                decreases self.messages@.len() - i,
            {
                kept.push(self.messages[i].clone());
                i = i + 1;
            }
            self.messages = kept;
            proof {
                assert(msgs_view(self.messages@) =~= grown.skip(grown.len() - WINDOW_LIMIT));
            }
        }
        proof {
            assert(msgs_view(self.messages@) =~= finalized_spec(h, reply_view));
        }
    }

    /// Empty the stored history unconditionally.
    pub fn clear(&mut self)
        ensures
            final(self).messages@.len() == 0,
    {
        self.messages = Vec::new();
    }
}

/// Assemble the chat request for a new user turn: the fixed model name, the
/// prompt built from the window, and streaming switched on.
pub fn build_chat_request(window: &ConversationWindow, new_text: String) -> (r: ChatRequest)
    ensures
        r.model@ == CHAT_MODEL@,
        r.stream == true,
        msgs_view(r.messages@) == prompt_spec(msgs_view(window.messages@), new_text@),
{
    ChatRequest {
        model: String::from_str(CHAT_MODEL),
        messages: window.build_prompt(new_text),
        stream: true,
    }
}

/// A prompt built over a history free of system messages begins with exactly
/// one system message, holds at most `CONTEXT_LIMIT` stored messages plus
/// the new user turn, and ends with the new user turn.
pub proof fn lemma_prompt_shape(h: Seq<ChatMessageView>, new_text: Seq<char>)
    requires
        forall|i: int| 0 <= i < h.len() ==> (#[trigger] h[i]).role != "system"@,
    ensures
        prompt_spec(h, new_text).len() >= 2,
        prompt_spec(h, new_text).len() <= CONTEXT_LIMIT + 2,
        prompt_spec(h, new_text)[0] == system_message_view(),
        forall|i: int|
            1 <= i < prompt_spec(h, new_text).len() ==> (#[trigger] prompt_spec(
                h,
                new_text,
            )[i]).role != "system"@,
        prompt_spec(h, new_text).last() == user_message_view(new_text),
{
    reveal_strlit("system");
    reveal_strlit("user");
    let p = prompt_spec(h, new_text);
    assert forall|i: int| 1 <= i < p.len() implies (#[trigger] p[i]).role != "system"@ by {
        if i < p.len() - 1 {
            let c = context_of(h);
            assert(p[i] == c[i - 1]);
            if h.len() > CONTEXT_LIMIT {
                assert(c[i - 1] == h[h.len() - CONTEXT_LIMIT + i - 1]);
            }
        } else {
            assert(p[i] == user_message_view(new_text));
            assert("user"@.len() != "system"@.len());
        }
    }
}

/// After a completed exchange with a non-empty reply the stored history
/// holds at most `WINDOW_LIMIT` messages, the reply is the newest entry, and
/// what is kept is the newest suffix of the grown history: oldest dropped
/// first.
pub proof fn lemma_window_clamped(h: Seq<ChatMessageView>, reply: Seq<char>)
    requires
        reply.len() > 0,
    ensures
        finalized_spec(h, reply).len() == if h.len() + 1 <= WINDOW_LIMIT {
            h.len() + 1
        } else {
            WINDOW_LIMIT as nat
        },
        finalized_spec(h, reply).last() == assistant_message_view(reply),
        forall|i: int|
            0 <= i < finalized_spec(h, reply).len() ==> #[trigger] finalized_spec(h, reply)[i]
                == h.push(assistant_message_view(reply))[i + (h.len() + 1
                - finalized_spec(h, reply).len())],
{
    let grown = h.push(assistant_message_view(reply));
    if grown.len() > WINDOW_LIMIT {
        assert(finalized_spec(h, reply) == grown.skip(grown.len() - WINDOW_LIMIT));
    }
}

/// A history within the window bound stays within it across any completed
/// exchange, whatever the reply.
pub proof fn lemma_window_invariant(h: Seq<ChatMessageView>, reply: Seq<char>)
    requires
        h.len() <= WINDOW_LIMIT,
    ensures
        finalized_spec(h, reply).len() <= WINDOW_LIMIT,
{
}

} // verus!
