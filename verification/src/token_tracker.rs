//! Token use of assistant sessions, added up from the messages that the
//! assistant leaves on disk.

use vstd::prelude::*;
use crate::host::data_local_dir;
use crate::paths::{join, joined};
use crate::text::{copy_text, ends_with, option_text, starts_with, str_eq};

verus! {

/// How many tokens a session used.
#[derive(Debug, Clone)]
pub struct TokenUsage {
    pub input_tokens: i64,
    pub output_tokens: i64,
    pub total_tokens: i64,
    pub cache_read_tokens: i64,
    pub cache_write_tokens: i64,
    pub session_id: String,
    pub model: Option<String>,
    pub message_count: i32,
}

impl Default for TokenUsage {
    fn default() -> (usage: TokenUsage)
        ensures
            usage.input_tokens == 0,
            usage.output_tokens == 0,
            usage.total_tokens == 0,
            usage.cache_read_tokens == 0,
            usage.cache_write_tokens == 0,
            usage.session_id@.len() == 0,
            usage.model is None,
            usage.message_count == 0,
    {
        TokenUsage {
            input_tokens: 0,
            output_tokens: 0,
            total_tokens: 0,
            cache_read_tokens: 0,
            cache_write_tokens: 0,
            session_id: String::new(),
            model: None,
            message_count: 0,
        }
    }
}

/// Tokens that went through the cache.
pub struct CacheTokens {
    pub read: Option<i64>,
    pub write: Option<i64>,
}

/// The tokens of one message.
pub struct MessageTokens {
    pub input: Option<i64>,
    pub output: Option<i64>,
    pub reasoning: Option<i64>,
    pub cache: Option<CacheTokens>,
}

/// One message of a session, as far as it is read.
pub struct OpenCodeMessage {
    pub id: String,
    pub session_id: String,
    pub role: String,
    pub model_id: Option<String>,
    pub tokens: Option<MessageTokens>,
}

/// A count that is left out counts as zero.
pub open spec fn or_zero(count: Option<i64>) -> int {
    match count {
        Some(n) => n as int,
        None => 0,
    }
}

/// Whether `message` adds to the use: one of the assistant that says how
/// many tokens it took.
pub open spec fn counts(message: OpenCodeMessage) -> bool {
    message.role@ == "assistant"@ && message.tokens is Some
}

/// The running sums of a session.
pub struct Tally {
    pub input: int,
    pub output: int,
    pub cache_read: int,
    pub cache_write: int,
    pub messages: int,
    pub model: Option<Seq<char>>,
}

/// The sums that `usage` holds.
pub open spec fn tally_of(usage: TokenUsage) -> Tally {
    Tally {
        input: usage.input_tokens as int,
        output: usage.output_tokens as int,
        cache_read: usage.cache_read_tokens as int,
        cache_write: usage.cache_write_tokens as int,
        messages: usage.message_count as int,
        model: option_text(usage.model),
    }
}

/// The tokens that `tokens` read from the cache.
pub open spec fn cache_read_of(tokens: MessageTokens) -> int {
    match tokens.cache {
        Some(cache) => or_zero(cache.read),
        None => 0,
    }
}

/// The tokens that `tokens` wrote to the cache.
pub open spec fn cache_write_of(tokens: MessageTokens) -> int {
    match tokens.cache {
        Some(cache) => or_zero(cache.write),
        None => 0,
    }
}

/// The sums after `message`: a message that counts adds its tokens and
/// itself, and the first one to name a model sets the model.
pub open spec fn with_message(tally: Tally, message: OpenCodeMessage) -> Tally {
    if counts(message) {
        let tokens = message.tokens->0;
        Tally {
            input: tally.input + or_zero(tokens.input),
            output: tally.output + or_zero(tokens.output),
            cache_read: tally.cache_read + cache_read_of(tokens),
            cache_write: tally.cache_write + cache_write_of(tokens),
            messages: tally.messages + 1,
            model: if tally.model is None {
                option_text(message.model_id)
            } else {
                tally.model
            },
        }
    } else {
        tally
    }
}

/// Whether the sums can be held.
pub open spec fn fits(tally: Tally) -> bool {
    &&& i64::MIN <= tally.input <= i64::MAX
    &&& i64::MIN <= tally.output <= i64::MAX
    &&& i64::MIN <= tally.cache_read <= i64::MAX
    &&& i64::MIN <= tally.cache_write <= i64::MAX
    &&& i32::MIN <= tally.messages <= i32::MAX
}

/// The total of a session: input, output and what was read from the cache.
pub open spec fn total_of(tally: Tally) -> int {
    tally.input + tally.output + tally.cache_read
}

fn sum_fits(a: i64, b: i64) -> (yes: bool)
    ensures
        yes == (i64::MIN <= a + b <= i64::MAX),
{
    a.checked_add(b).is_some()
}

fn value_or_zero(count: &Option<i64>) -> (n: i64)
    ensures
        n == or_zero(*count),
{
    match count {
        Some(n) => *n,
        None => 0,
    }
}

fn cache_read(tokens: &MessageTokens) -> (n: i64)
    ensures
        n == cache_read_of(*tokens),
{
    match &tokens.cache {
        Some(cache) => value_or_zero(&cache.read),
        None => 0,
    }
}

fn cache_write(tokens: &MessageTokens) -> (n: i64)
    ensures
        n == cache_write_of(*tokens),
{
    match &tokens.cache {
        Some(cache) => value_or_zero(&cache.write),
        None => 0,
    }
}

impl TokenUsage {
    /// Nothing used yet in the session `session_id`.
    pub fn for_session(session_id: &str) -> (usage: TokenUsage)
        ensures
            usage.session_id@ == session_id@,
            usage.total_tokens == 0,
            tally_of(usage) == (Tally {
                input: 0,
                output: 0,
                cache_read: 0,
                cache_write: 0,
                messages: 0,
                model: None,
            }),
    {
        TokenUsage {
            input_tokens: 0,
            output_tokens: 0,
            total_tokens: 0,
            cache_read_tokens: 0,
            cache_write_tokens: 0,
            session_id: session_id.to_owned(),
            model: None,
            message_count: 0,
        }
    }

    /// Whether `message` can be added without a sum running over.
    pub fn has_room_for(&self, message: &OpenCodeMessage) -> (yes: bool)
        ensures
            yes == fits(with_message(tally_of(*self), *message)),
    {
        if !str_eq(message.role.as_str(), "assistant") {
            return true;
        }
        match &message.tokens {
            Some(tokens) => {
                sum_fits(self.input_tokens, value_or_zero(&tokens.input)) && sum_fits(
                    self.output_tokens,
                    value_or_zero(&tokens.output),
                ) && sum_fits(self.cache_read_tokens, cache_read(tokens)) && sum_fits(
                    self.cache_write_tokens,
                    cache_write(tokens),
                ) && self.message_count < i32::MAX
            },
            None => true,
        }
    }

    /// Adds `message` to the sums.
    pub fn add_message(&mut self, message: &OpenCodeMessage)
        requires
            fits(with_message(tally_of(*old(self)), *message)),
        ensures
            tally_of(*final(self)) == with_message(tally_of(*old(self)), *message),
            final(self).session_id == old(self).session_id,
            final(self).total_tokens == old(self).total_tokens,
    {
        if !str_eq(message.role.as_str(), "assistant") {
            return ;
        }
        match &message.tokens {
            Some(tokens) => {
                self.input_tokens = self.input_tokens + value_or_zero(&tokens.input);
                self.output_tokens = self.output_tokens + value_or_zero(&tokens.output);
                self.cache_read_tokens = self.cache_read_tokens + cache_read(tokens);
                self.cache_write_tokens = self.cache_write_tokens + cache_write(tokens);
                self.message_count = self.message_count + 1;
                if self.model.is_none() {
                    self.model = copy_text(&message.model_id);
                }
            },
            None => {},
        }
    }

    /// Whether the total can be held.
    pub fn total_fits(&self) -> (yes: bool)
        ensures
            yes == (i64::MIN <= total_of(tally_of(*self)) <= i64::MAX),
    {
        let partial = self.input_tokens as i128 + self.output_tokens as i128
            + self.cache_read_tokens as i128;
        partial >= i64::MIN as i128 && partial <= i64::MAX as i128
    }

    /// Sets the total from the sums.
    pub fn close(&mut self)
        requires
            i64::MIN <= total_of(tally_of(*old(self))) <= i64::MAX,
        ensures
            final(self).total_tokens == total_of(tally_of(*old(self))),
            tally_of(*final(self)) == tally_of(*old(self)),
            final(self).session_id == old(self).session_id,
    {
        let partial = self.input_tokens as i128 + self.output_tokens as i128
            + self.cache_read_tokens as i128;
        self.total_tokens = partial as i64;
    }
}

/// Where the assistant keeps its files below the directory for local data.
pub open spec fn storage_of(data_dir: Seq<char>) -> Seq<char> {
    joined(joined(data_dir, "opencode"@), "storage"@)
}

/// Where the messages of a session lie below the assistant's storage.
pub open spec fn session_dir_of(storage: Seq<char>, session_id: Seq<char>) -> Seq<char> {
    joined(joined(storage, "message"@), session_id)
}

/// Computes [`storage_of`].
pub fn storage_in(data_dir: &str) -> (storage: String)
    ensures
        storage@ == storage_of(data_dir@),
{
    let base = join(data_dir, "opencode");
    join(base.as_str(), "storage")
}

/// Where the assistant keeps its files, where the system has a directory
/// for local data.
pub fn get_opencode_storage_path() -> (storage: Option<String>)
    ensures
        storage matches Some(path) ==> exists|data_dir: Seq<char>| path@ == storage_of(data_dir),
{
    storage_below(data_local_dir())
}

/// Where the assistant keeps its files, given the system's directory for
/// local data: below that directory where there is one, nowhere otherwise.
/// Whether there is one, and which, only the system says.
pub fn storage_below(data_dir: Option<String>) -> (storage: Option<String>)
    ensures
        storage is Some <==> data_dir is Some,
        storage matches Some(path) ==> path@ == storage_of(data_dir->0@),
{
    match data_dir {
        Some(dir) => Some(storage_in(dir.as_str())),
        None => None,
    }
}

/// Computes [`session_dir_of`].
pub fn session_dir(storage: &str, session_id: &str) -> (dir: String)
    ensures
        dir@ == session_dir_of(storage@, session_id@),
{
    let base = join(storage, "message");
    join(base.as_str(), session_id)
}

/// Whether a file of this name holds a message: its extension is `json`.
/// A name that is nothing but `.json` has no extension.
pub fn is_message_file(file_name: &str) -> (yes: bool)
    ensures
        yes == (".json"@.is_suffix_of(file_name@) && file_name@.len() > ".json"@.len()),
{
    ends_with(file_name, ".json") && file_name.unicode_len() > ".json".unicode_len()
}

/// Whether a directory of this name holds a session.
pub fn is_session_name(name: &str) -> (yes: bool)
    ensures
        yes == "ses_"@.is_prefix_of(name@),
{
    starts_with(name, "ses_")
}

} // verus!
