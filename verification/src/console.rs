//! The JavaScript console: what its runtime and its caller say, what it answers,
//! and when its runtime is started anew.

use crate::json;
use crate::json::{check_json, flag_member, number_member, part_member, text_member, texts_member};
use crate::picture;
use crate::picture::{
    EmbeddedImage, EmbeddedView, coordinate_space, embedded_image, find_color_note, picture_size,
};
use crate::text;
use crate::text::{append_decimal, copy_text, str_eq};
use vstd::prelude::*;
use vstd::string::*;

verus! {

/// The largest number of bytes of code that is evaluated.
pub const MAX_EVAL_CODE_BYTES: u64 = 1_048_576;

/// How long an evaluation may take if nothing else is set, in milliseconds.
pub const DEFAULT_EVAL_TIMEOUT_MS: u64 = 120_000;

/// The shortest time that can be set for an evaluation, in milliseconds.
pub const MIN_EVAL_TIMEOUT_MS: u64 = 1_000;

/// The longest time that can be set for an evaluation, in milliseconds.
pub const MAX_EVAL_TIMEOUT_MS: u64 = 900_000;

/// The number that decimal digits make up.
pub open spec fn number_of_digits(digits: Seq<char>) -> nat
    decreases digits.len(),
{
    if digits.len() == 0 {
        0
    } else {
        10 * number_of_digits(digits.drop_last()) + (digits.last() as nat - '0' as nat) as nat
    }
}

/// The number that a text stands for: digits, with a plus sign in front of them or
/// not, of a number that fits into 64 bits.
pub open spec fn number_in(value: Seq<char>) -> Option<u64> {
    let digits = if value.len() > 0 && value[0] == '+' {
        value.skip(1)
    } else {
        value
    };
    if digits.len() > 0 && (forall|i: int|
        0 <= i < digits.len() ==> '0' <= #[trigger] digits[i] <= '9') && number_of_digits(digits)
        <= u64::MAX {
        Some(number_of_digits(digits) as u64)
    } else {
        None
    }
}

/// `str::parse` into a `u64`: an optional plus sign followed by only digits, of a
/// number that fits.
#[verifier::external_body]
fn parse_number(value: &str) -> (number: Option<u64>)
    ensures
        number == number_in(value@),
{
    value.parse::<u64>().ok()
}

/// How long an evaluation may take, as it is set in the environment.
pub open spec fn evaluation_timeout(value: Option<Seq<char>>) -> u64 {
    match value {
        None => DEFAULT_EVAL_TIMEOUT_MS,
        Some(content) => match number_in(content) {
            None => DEFAULT_EVAL_TIMEOUT_MS,
            Some(milliseconds) => if milliseconds < MIN_EVAL_TIMEOUT_MS {
                MIN_EVAL_TIMEOUT_MS
            } else if milliseconds > MAX_EVAL_TIMEOUT_MS {
                MAX_EVAL_TIMEOUT_MS
            } else {
                milliseconds
            },
        },
    }
}

/// How long an evaluation may take, in milliseconds, given what is set in the
/// environment.
pub fn evaluation_timeout_from_env(value: &Option<String>) -> (milliseconds: u64)
    ensures
        milliseconds == evaluation_timeout(text::optional(*value)),
        MIN_EVAL_TIMEOUT_MS <= milliseconds <= MAX_EVAL_TIMEOUT_MS,
{
    match value {
        None => DEFAULT_EVAL_TIMEOUT_MS,
        Some(content) => match parse_number(content.as_str()) {
            None => DEFAULT_EVAL_TIMEOUT_MS,
            Some(milliseconds) => if milliseconds < MIN_EVAL_TIMEOUT_MS {
                MIN_EVAL_TIMEOUT_MS
            } else if milliseconds > MAX_EVAL_TIMEOUT_MS {
                MAX_EVAL_TIMEOUT_MS
            } else {
                milliseconds
            },
        },
    }
}

/// Whether code is short enough to be evaluated, else a message.
pub open spec fn code_verdict(length: nat) -> Result<(), Seq<char>> {
    if length > MAX_EVAL_CODE_BYTES {
        Err(
            "JavaScript evaluation is "@ + text::decimal(length) + " bytes; the limit is "@
                + text::decimal(MAX_EVAL_CODE_BYTES as nat) + " bytes"@,
        )
    } else {
        Ok(())
    }
}

/// Checks that code is short enough to be evaluated.
pub fn check_code(code: &str) -> (checked: Result<(), String>)
    ensures
        text::outcome(checked) == code_verdict(code.spec_bytes().len()),
{
    let length: u64 = code.as_bytes().len() as u64;
    if length > MAX_EVAL_CODE_BYTES {
        let mut message = "JavaScript evaluation is ".to_owned();
        append_decimal(&mut message, length);
        message.append(" bytes; the limit is ");
        append_decimal(&mut message, MAX_EVAL_CODE_BYTES);
        message.append(" bytes");
        Err(message)
    } else {
        Ok(())
    }
}

/// A picture that belongs to an evaluation: where it is kept, its file, and a note
/// on its colors.
#[derive(Debug, PartialEq, Eq)]
pub struct JsConsoleImage {
    pub color: Option<String>,
    pub bytes: Vec<u8>,
    pub path: String,
}

/// The value of a picture.
#[verifier::ext_equal]
pub struct ImageView {
    pub color: Option<Seq<char>>,
    pub bytes: Seq<u8>,
    pub path: Seq<char>,
}

impl View for JsConsoleImage {
    type V = ImageView;

    open spec fn view(&self) -> ImageView {
        ImageView { color: text::optional(self.color), bytes: self.bytes@, path: self.path@ }
    }
}

/// The values of pictures.
pub open spec fn image_values(images: Seq<JsConsoleImage>) -> Seq<ImageView> {
    Seq::new(images.len(), |i: int| images[i]@)
}

/// The values of texts.
pub open spec fn text_values(texts: Seq<String>) -> Seq<Seq<char>> {
    Seq::new(texts.len(), |i: int| texts[i]@)
}

/// What an evaluation came to: its value as JSON, what it logged, and its pictures.
#[derive(Debug, PartialEq, Eq)]
pub struct JsEvalOutput {
    pub value: String,
    pub logs: Vec<String>,
    pub images: Vec<JsConsoleImage>,
}

/// The value of what an evaluation came to.
#[verifier::ext_equal]
pub struct OutputView {
    pub value: Seq<char>,
    pub logs: Seq<Seq<char>>,
    pub images: Seq<ImageView>,
}

impl View for JsEvalOutput {
    type V = OutputView;

    open spec fn view(&self) -> OutputView {
        OutputView {
            value: self.value@,
            logs: text_values(self.logs@),
            images: image_values(self.images@),
        }
    }
}

/// What the runtime says.
#[derive(Debug, PartialEq, Eq)]
pub enum ConsoleMessage {
    /// It calls a function of the proxy.
    NativeCall { call_id: u64, eval_id: Option<u64>, method: String, args: String },
    /// It is done with an evaluation.
    EvalResult { id: u64, logs: Vec<String>, result: Result<String, String> },
    /// It cannot go on.
    RuntimeError(String),
    /// Something else.
    Other,
}

/// The value of what the runtime says.
#[verifier::ext_equal]
pub enum MessageView {
    NativeCall { call_id: u64, eval_id: Option<u64>, method: Seq<char>, args: Seq<char> },
    EvalResult { id: u64, logs: Seq<Seq<char>>, result: Result<Seq<char>, Seq<char>> },
    RuntimeError(Seq<char>),
    Other,
}

impl View for ConsoleMessage {
    type V = MessageView;

    open spec fn view(&self) -> MessageView {
        match self {
            ConsoleMessage::NativeCall { call_id, eval_id, method, args } => MessageView::NativeCall {
                call_id: *call_id,
                eval_id: *eval_id,
                method: method@,
                args: args@,
            },
            ConsoleMessage::EvalResult { id, logs, result } => MessageView::EvalResult {
                id: *id,
                logs: text_values(logs@),
                result: text::outcome(*result),
            },
            ConsoleMessage::RuntimeError(message) => MessageView::RuntimeError(message@),
            ConsoleMessage::Other => MessageView::Other,
        }
    }
}

/// The texts that are there.
pub open spec fn present(texts: Seq<Option<Seq<char>>>) -> Seq<Seq<char>>
    decreases texts.len(),
{
    if texts.len() == 0 {
        Seq::empty()
    } else {
        match texts.last() {
            Some(found) => present(texts.drop_last()).push(found),
            None => present(texts.drop_last()),
        }
    }
}

/// A value, or another in its place.
pub open spec fn or_else<T>(value: Option<T>, other: T) -> T {
    match value {
        Some(found) => found,
        None => other,
    }
}

/// The members of a line of the runtime that may count.
#[derive(Debug, PartialEq, Eq)]
pub struct MessageParts {
    pub kind: Option<String>,
    pub id: Option<u64>,
    pub eval_id: Option<u64>,
    pub method: Option<String>,
    pub args: Option<String>,
    pub ok: Option<bool>,
    pub value: Option<String>,
    pub error: Option<String>,
    pub logs: Option<Vec<Option<String>>>,
}

/// The value of the members of a line.
#[verifier::ext_equal]
pub struct PartsView {
    pub kind: Option<Seq<char>>,
    pub id: Option<u64>,
    pub eval_id: Option<u64>,
    pub method: Option<Seq<char>>,
    pub args: Option<Seq<char>>,
    pub ok: Option<bool>,
    pub value: Option<Seq<char>>,
    pub error: Option<Seq<char>>,
    pub logs: Option<Seq<Option<Seq<char>>>>,
}

impl View for MessageParts {
    type V = PartsView;

    open spec fn view(&self) -> PartsView {
        PartsView {
            kind: text::optional(self.kind),
            id: self.id,
            eval_id: self.eval_id,
            method: text::optional(self.method),
            args: text::optional(self.args),
            ok: self.ok,
            value: text::optional(self.value),
            error: text::optional(self.error),
            logs: match self.logs {
                Some(items) => Some(json::optional_values(items@)),
                None => None,
            },
        }
    }
}

/// What the runtime says with the members of a line.
pub open spec fn composed(parts: PartsView) -> MessageView {
    if parts.kind == Some("native_call"@) {
        MessageView::NativeCall {
            call_id: or_else(parts.id, 0),
            eval_id: parts.eval_id,
            method: or_else(parts.method, ""@),
            args: or_else(parts.args, "{}"@),
        }
    } else if parts.kind == Some("eval_result"@) {
        MessageView::EvalResult {
            id: or_else(parts.id, 0),
            logs: match parts.logs {
                Some(items) => present(items),
                None => Seq::empty(),
            },
            result: if parts.ok == Some(true) {
                Ok(or_else(parts.value, "null"@))
            } else {
                Err(or_else(parts.error, "JavaScript evaluation failed"@))
            },
        }
    } else if parts.kind == Some("runtime_error"@) {
        MessageView::RuntimeError(or_else(parts.error, "JavaScript runtime error"@))
    } else {
        MessageView::Other
    }
}

/// The members of a line that is JSON.
pub open spec fn parts_of(line: Seq<char>) -> PartsView {
    PartsView {
        kind: json::json_text(line, "type"@),
        id: json::json_number(line, "id"@),
        eval_id: json::json_number(line, "evalId"@),
        method: json::json_text(line, "method"@),
        args: json::json_part(line, "args"@),
        ok: json::json_flag(line, "ok"@),
        value: json::json_part(line, "value"@),
        error: json::json_text(line, "error"@),
        logs: json::json_texts(line, "logs"@),
    }
}

/// What a line of the runtime says, or what is wrong with it.
pub open spec fn message_of(line: Seq<char>) -> Result<MessageView, Seq<char>> {
    match json::json_fault(line) {
        Some(fault) => Err(fault),
        None => Ok(composed(parts_of(line))),
    }
}

fn given_or(given: Option<String>, other: &str) -> (chosen: String)
    ensures
        chosen@ == or_else(text::optional(given), other@),
{
    match given {
        Some(found) => found,
        None => other.to_owned(),
    }
}

fn number_or_zero(given: Option<u64>) -> (chosen: u64)
    ensures
        chosen == or_else(given, 0),
{
    match given {
        Some(found) => found,
        None => 0,
    }
}

fn present_texts(texts: Vec<Option<String>>) -> (found: Vec<String>)
    ensures
        text_values(found@) == present(json::optional_values(texts@)),
{
    let ghost all = json::optional_values(texts@);
    let mut found: Vec<String> = Vec::new();
    let mut index: usize = 0;
    proof {
        assert(text_values(found@) =~= present(all.take(0)));
    }
    while index < texts.len()
        invariant
            index <= texts@.len(),
            all == json::optional_values(texts@),
            text_values(found@) == present(all.take(index as int)),
        decreases texts@.len() - index,
    {
        let ghost before = found@;
        proof {
            assert(all.take(index + 1).drop_last() =~= all.take(index as int));
            assert(all.take(index + 1).last() == text::optional(texts@[index as int]));
        }
        if let Some(item) = &texts[index] {
            found.push(item.clone());
            proof {
                assert(text_values(found@) =~= text_values(before).push(item@));
            }
        }
        index = index + 1;
    }
    proof {
        assert(all.take(index as int) =~= all);
    }
    found
}

fn is_kind(kind: &Option<String>, name: &str) -> (same: bool)
    ensures
        same == (text::optional(*kind) == Some(name@)),
{
    match kind {
        Some(found) => str_eq(found.as_str(), name),
        None => false,
    }
}

/// Says what the runtime says with the members of a line.
pub fn compose_message(parts: MessageParts) -> (message: ConsoleMessage)
    ensures
        message@ == composed(parts@),
{
    if is_kind(&parts.kind, "native_call") {
        return ConsoleMessage::NativeCall {
            call_id: number_or_zero(parts.id),
            eval_id: parts.eval_id,
            method: given_or(parts.method, ""),
            args: given_or(parts.args, "{}"),
        };
    }
    if is_kind(&parts.kind, "eval_result") {
        let logs: Vec<String> = match parts.logs {
            Some(texts) => present_texts(texts),
            None => Vec::new(),
        };
        proof {
            assert(parts@.logs is None ==> text_values(logs@) =~= Seq::empty());
        }
        let succeeded: bool = match parts.ok {
            Some(ok) => ok,
            None => false,
        };
        let result: Result<String, String> = if succeeded {
            Ok(given_or(parts.value, "null"))
        } else {
            Err(given_or(parts.error, "JavaScript evaluation failed"))
        };
        return ConsoleMessage::EvalResult { id: number_or_zero(parts.id), logs, result };
    }
    if is_kind(&parts.kind, "runtime_error") {
        return ConsoleMessage::RuntimeError(given_or(parts.error, "JavaScript runtime error"));
    }
    ConsoleMessage::Other
}

fn read_parts(line: &str) -> (parts: Result<MessageParts, String>)
    ensures
        match parts {
            Ok(found) => json::json_fault(line@) is None && found@ == parts_of(line@),
            Err(fault) => json::json_fault(line@) == Some(fault@),
        },
{
    let logs: Option<Vec<Option<String>>> = match texts_member(line, "logs") {
        Ok(logs) => logs,
        Err(fault) => return Err(fault),
    };
    let ok: Option<bool> = match flag_member(line, "ok") {
        Ok(ok) => ok,
        Err(fault) => return Err(fault),
    };
    Ok(
        MessageParts {
            kind: optional_string(line, "type"),
            id: optional_number(line, "id"),
            eval_id: optional_number(line, "evalId"),
            method: optional_string(line, "method"),
            args: optional_part(line, "args"),
            ok,
            value: optional_part(line, "value"),
            error: optional_string(line, "error"),
            logs,
        },
    )
}

/// Reads a line of the runtime.
pub fn read_message(line: &str) -> (message: Result<ConsoleMessage, String>)
    ensures
        text::outcome(message) == message_of(line@),
{
    match read_parts(line) {
        Ok(parts) => Ok(compose_message(parts)),
        Err(fault) => Err(fault),
    }
}

/// What happens to a running console.
#[derive(Debug, PartialEq, Eq)]
pub enum ConsoleEvent {
    /// Its caller wants code to be evaluated.
    Command { id: u64 },
    /// It has no caller any more.
    CommandsClosed,
    /// The runtime says a line.
    Line(String),
    /// The runtime ended.
    Exited,
    /// The runtime cannot be heard.
    ReadFailed(String),
    /// The runtime cannot be told anything.
    WriteFailed(String),
    /// The evaluation took too long.
    TimedOut,
}

/// What a running console does next.
#[derive(Debug, PartialEq, Eq)]
pub enum ConsoleAction {
    /// Tells the runtime to evaluate the code, and waits no longer than allowed.
    Evaluate,
    /// Answers the caller that its code is not evaluated.
    Refuse(String),
    /// Ends the runtime and itself.
    Close,
    /// Answers the evaluation under way, if there is one, that it failed, and starts
    /// the runtime anew.
    Restart(Option<(u64, String)>),
    /// Does what the runtime calls for, and tells it what came of it.
    Call { call_id: u64, eval_id: Option<u64>, method: String, args: String },
    /// Answers an evaluation.
    Answer { id: u64, result: Result<JsEvalOutput, String> },
    /// Nothing.
    Ignore,
}

/// The value of what happens.
#[verifier::ext_equal]
pub enum EventView {
    Command { id: u64 },
    CommandsClosed,
    Line(Seq<char>),
    Exited,
    ReadFailed(Seq<char>),
    WriteFailed(Seq<char>),
    TimedOut,
}

/// The value of what a console does next.
#[verifier::ext_equal]
pub enum ActionView {
    Evaluate,
    Refuse(Seq<char>),
    Close,
    Restart(Option<(u64, Seq<char>)>),
    Call { call_id: u64, eval_id: Option<u64>, method: Seq<char>, args: Seq<char> },
    Answer { id: u64, result: Result<OutputView, Seq<char>> },
    Ignore,
}

impl View for ConsoleEvent {
    type V = EventView;

    open spec fn view(&self) -> EventView {
        match self {
            ConsoleEvent::Command { id } => EventView::Command { id: *id },
            ConsoleEvent::CommandsClosed => EventView::CommandsClosed,
            ConsoleEvent::Line(line) => EventView::Line(line@),
            ConsoleEvent::Exited => EventView::Exited,
            ConsoleEvent::ReadFailed(error) => EventView::ReadFailed(error@),
            ConsoleEvent::WriteFailed(error) => EventView::WriteFailed(error@),
            ConsoleEvent::TimedOut => EventView::TimedOut,
        }
    }
}

impl View for ConsoleAction {
    type V = ActionView;

    open spec fn view(&self) -> ActionView {
        match self {
            ConsoleAction::Evaluate => ActionView::Evaluate,
            ConsoleAction::Refuse(message) => ActionView::Refuse(message@),
            ConsoleAction::Close => ActionView::Close,
            ConsoleAction::Restart(failed) => ActionView::Restart(
                match failed {
                    Some((id, message)) => Some((*id, message@)),
                    None => None,
                },
            ),
            ConsoleAction::Call { call_id, eval_id, method, args } => ActionView::Call {
                call_id: *call_id,
                eval_id: *eval_id,
                method: method@,
                args: args@,
            },
            ConsoleAction::Answer { id, result } => ActionView::Answer {
                id: *id,
                result: text::outcome(*result),
            },
            ConsoleAction::Ignore => ActionView::Ignore,
        }
    }
}

/// An evaluation under way, with its pictures.
#[derive(Debug, PartialEq, Eq)]
pub struct PendingEval {
    pub id: u64,
    pub images: Vec<JsConsoleImage>,
}

/// The value of an evaluation under way.
#[verifier::ext_equal]
pub struct PendingView {
    pub id: u64,
    pub images: Seq<ImageView>,
}

/// A console with a running runtime: how long an evaluation may take, and the one
/// under way.
#[derive(Debug, PartialEq, Eq)]
pub struct JsConsoleSession {
    pub timeout_ms: u64,
    pub pending: Option<PendingEval>,
}

/// The value of a running console.
#[verifier::ext_equal]
pub struct ConsoleView {
    pub timeout_ms: u64,
    pub pending: Option<PendingView>,
}

impl View for JsConsoleSession {
    type V = ConsoleView;

    open spec fn view(&self) -> ConsoleView {
        ConsoleView {
            timeout_ms: self.timeout_ms,
            pending: match self.pending {
                Some(evaluation) => Some(
                    PendingView { id: evaluation.id, images: image_values(evaluation.images@) },
                ),
                None => None,
            },
        }
    }
}

/// A message with the remark that the runtime was started anew.
pub open spec fn with_restart(message: Seq<char>) -> Seq<char> {
    message + "; the runtime was restarted and its state was cleared"@
}

/// The message for a runtime that cannot be told anything.
pub open spec fn write_failure(error: Seq<char>) -> Seq<char> {
    error + "; the JavaScript runtime was restarted and its state was cleared"@
}

impl ConsoleView {
    /// A console whose runtime is started anew; the evaluation under way failed.
    pub open spec fn restarted(self, message: Seq<char>) -> (ConsoleView, ActionView) {
        (
            ConsoleView { pending: None, ..self },
            ActionView::Restart(
                match self.pending {
                    Some(evaluation) => Some((evaluation.id, message)),
                    None => None,
                },
            ),
        )
    }

    /// A console that was told something by the runtime, or something that cannot
    /// be read.
    pub open spec fn told(self, message: Result<MessageView, Seq<char>>) -> (
        ConsoleView,
        ActionView,
    ) {
        match message {
            Err(fault) => self.restarted(
                with_restart("invalid JavaScript console response: "@ + fault),
            ),
            Ok(MessageView::NativeCall { call_id, eval_id, method, args }) => (
                self,
                ActionView::Call { call_id, eval_id, method, args },
            ),
            Ok(MessageView::EvalResult { id, logs, result }) => if self.pending is Some
                && self.pending->0.id == id {
                (
                    ConsoleView { pending: None, ..self },
                    ActionView::Answer {
                        id,
                        result: match result {
                            Ok(value) => Ok(
                                OutputView { value, logs, images: self.pending->0.images },
                            ),
                            Err(message) => Err(message),
                        },
                    },
                )
            } else {
                (self, ActionView::Ignore)
            },
            Ok(MessageView::RuntimeError(message)) => self.restarted(message),
            Ok(MessageView::Other) => (self, ActionView::Ignore),
        }
    }

    /// What a console does about what happens, and what it is afterwards.
    pub open spec fn stepped(self, event: EventView) -> (ConsoleView, ActionView) {
        match event {
            EventView::Command { id } => if self.pending is Some {
                (self, ActionView::Refuse("the JavaScript console is already evaluating code"@))
            } else {
                (
                    ConsoleView {
                        pending: Some(PendingView { id, images: Seq::empty() }),
                        ..self
                    },
                    ActionView::Evaluate,
                )
            },
            EventView::CommandsClosed => (self, ActionView::Close),
            EventView::Line(line) => self.told(message_of(line)),
            EventView::Exited => self.restarted(
                with_restart("JavaScript console process exited"@),
            ),
            EventView::ReadFailed(error) => self.restarted(
                with_restart("failed to read JavaScript console: "@ + error),
            ),
            EventView::WriteFailed(error) => self.restarted(write_failure(error)),
            EventView::TimedOut => self.restarted(
                with_restart(
                    "JavaScript evaluation exceeded "@ + text::decimal(self.timeout_ms as nat)
                        + " ms"@,
                ),
            ),
        }
    }

    /// A console after a call of the runtime gave a picture.
    pub open spec fn with_image(self, eval_id: Option<u64>, image: Option<ImageView>) -> ConsoleView {
        match (self.pending, eval_id, image) {
            (Some(evaluation), Some(id), Some(picture)) => if evaluation.id == id {
                ConsoleView {
                    pending: Some(
                        PendingView { id, images: evaluation.images.push(picture) },
                    ),
                    ..self
                }
            } else {
                self
            },
            _ => self,
        }
    }
}

/// The evaluation that an action answers.
pub open spec fn answered_by(action: ActionView) -> Option<u64> {
    match action {
        ActionView::Answer { id, .. } => Some(id),
        ActionView::Restart(Some((id, _))) => Some(id),
        _ => None,
    }
}

/// An evaluation under way stays so, or is answered and gone; no other one is
/// answered.
pub proof fn evaluation_is_answered_once(console: ConsoleView, event: EventView)
    ensures
        ({
            let (after, action) = console.stepped(event);
            match console.pending {
                Some(evaluation) => match answered_by(action) {
                    Some(id) => id == evaluation.id && after.pending is None,
                    None => after.pending == console.pending,
                },
                None => answered_by(action) is None,
            }
        }),
{
}

/// A runtime that is started anew has nothing to answer.
pub proof fn restart_leaves_nothing_pending(console: ConsoleView, event: EventView)
    ensures
        console.stepped(event).1 is Restart ==> console.stepped(event).0.pending is None,
{
}

/// A caller is turned away while code is evaluated, and only then; what is under
/// way goes on.
pub proof fn one_evaluation_at_a_time(console: ConsoleView, id: u64)
    ensures
        console.stepped(EventView::Command { id }).1 is Refuse <==> console.pending is Some,
        console.pending is Some ==> console.stepped(EventView::Command { id }).0 == console,
        console.pending is None ==> console.stepped(EventView::Command { id }).1 is Evaluate,
{
}

impl JsConsoleSession {
    /// A console whose runtime was just started.
    pub fn new(timeout_ms: u64) -> (console: Self)
        ensures
            console@ == (ConsoleView { timeout_ms, pending: None }),
    {
        JsConsoleSession { timeout_ms, pending: None }
    }

    fn restart(&mut self, message: String) -> (action: ConsoleAction)
        ensures
            (final(self)@, action@) == old(self)@.restarted(message@),
    {
        match self.pending.take() {
            Some(evaluation) => ConsoleAction::Restart(Some((evaluation.id, message))),
            None => ConsoleAction::Restart(None),
        }
    }

    fn restart_with_remark(&mut self, reason: String) -> (action: ConsoleAction)
        ensures
            (final(self)@, action@) == old(self)@.restarted(with_restart(reason@)),
    {
        let mut message = reason;
        message.append("; the runtime was restarted and its state was cleared");
        self.restart(message)
    }

    /// Says what to do about what the runtime says, or about something that cannot
    /// be read.
    pub fn hear(&mut self, message: Result<ConsoleMessage, String>) -> (action: ConsoleAction)
        ensures
            (final(self)@, action@) == old(self)@.told(text::outcome(message)),
    {
        match message {
            Err(fault) => {
                let mut message = "invalid JavaScript console response: ".to_owned();
                message.append(fault.as_str());
                self.restart_with_remark(message)
            },
            Ok(ConsoleMessage::NativeCall { call_id, eval_id, method, args }) => {
                ConsoleAction::Call { call_id, eval_id, method, args }
            },
            Ok(ConsoleMessage::EvalResult { id, logs, result }) => {
                match self.pending.take() {
                    None => ConsoleAction::Ignore,
                    Some(evaluation) => {
                        if evaluation.id != id {
                            self.pending = Some(evaluation);
                            return ConsoleAction::Ignore;
                        }
                        let answer: Result<JsEvalOutput, String> = match result {
                            Ok(value) => Ok(
                                JsEvalOutput { value, logs, images: evaluation.images },
                            ),
                            Err(message) => Err(message),
                        };
                        ConsoleAction::Answer { id, result: answer }
                    },
                }
            },
            Ok(ConsoleMessage::RuntimeError(message)) => self.restart(message),
            Ok(ConsoleMessage::Other) => ConsoleAction::Ignore,
        }
    }

    /// Says what to do about what happens.
    pub fn step(&mut self, event: &ConsoleEvent) -> (action: ConsoleAction)
        ensures
            (final(self)@, action@) == old(self)@.stepped(event@),
    {
        match event {
            ConsoleEvent::Command { id } => {
                if self.pending.is_some() {
                    return ConsoleAction::Refuse(
                        "the JavaScript console is already evaluating code".to_owned(),
                    );
                }
                self.pending = Some(PendingEval { id: *id, images: Vec::new() });
                proof {
                    assert(image_values(Seq::empty()) =~= Seq::<ImageView>::empty());
                    assert(self@ =~= (ConsoleView {
                        pending: Some(PendingView { id: *id, images: Seq::empty() }),
                        ..old(self)@
                    }));
                }
                ConsoleAction::Evaluate
            },
            ConsoleEvent::CommandsClosed => ConsoleAction::Close,
            ConsoleEvent::Line(line) => self.hear(read_message(line.as_str())),
            ConsoleEvent::Exited => self.restart_with_remark(
                "JavaScript console process exited".to_owned(),
            ),
            ConsoleEvent::ReadFailed(error) => {
                let mut message = "failed to read JavaScript console: ".to_owned();
                message.append(error.as_str());
                self.restart_with_remark(message)
            },
            ConsoleEvent::WriteFailed(error) => {
                let mut message = error.clone();
                message.append("; the JavaScript runtime was restarted and its state was cleared");
                self.restart(message)
            },
            ConsoleEvent::TimedOut => {
                let mut message = "JavaScript evaluation exceeded ".to_owned();
                append_decimal(&mut message, self.timeout_ms);
                message.append(" ms");
                self.restart_with_remark(message)
            },
        }
    }

    /// Keeps the picture that a call of the runtime gave with the evaluation that
    /// made the call.
    pub fn keep_image(&mut self, eval_id: Option<u64>, image: Option<JsConsoleImage>)
        ensures
            final(self)@ == old(self)@.with_image(
                eval_id,
                match image {
                    Some(picture) => Some(picture@),
                    None => None,
                },
            ),
    {
        if let (Some(id), Some(picture)) = (eval_id, image) {
            match self.pending.take() {
                None => {},
                Some(mut evaluation) => {
                    if evaluation.id == id {
                        let ghost before = evaluation.images@;
                        evaluation.images.push(picture);
                        proof {
                            assert(image_values(evaluation.images@) =~= image_values(before).push(
                                picture@,
                            ));
                        }
                    }
                    self.pending = Some(evaluation);
                },
            }
        }
    }
}

/// A call of the runtime that can be carried out.
#[allow(inconsistent_fields)]
#[derive(Debug, PartialEq, Eq)]
pub enum NativeCall {
    Environment,
    Diagnostics,
    Windows,
    ResizeWindow { window_id: String, width: u32, height: u32 },
    Screenshot { window_id: Option<String> },
    CaptureNextFrame {
        window_id: Option<String>,
        after_commit_serial: Option<u64>,
        timeout_ms: Option<u64>,
    },
    /// The event is in JSON.
    PointerEvent { window_id: Option<String>, event: String },
    /// The event is in JSON.
    KeyboardEvent { window_id: Option<String>, event: String },
    KeyboardTextPlan { window_id: Option<String>, text: String },
}

/// The value of a call of the runtime.
#[allow(inconsistent_fields)]
#[verifier::ext_equal]
pub enum CallView {
    Environment,
    Diagnostics,
    Windows,
    ResizeWindow { window_id: Seq<char>, width: u32, height: u32 },
    Screenshot { window_id: Option<Seq<char>> },
    CaptureNextFrame {
        window_id: Option<Seq<char>>,
        after_commit_serial: Option<u64>,
        timeout_ms: Option<u64>,
    },
    PointerEvent { window_id: Option<Seq<char>>, event: Seq<char> },
    KeyboardEvent { window_id: Option<Seq<char>>, event: Seq<char> },
    KeyboardTextPlan { window_id: Option<Seq<char>>, text: Seq<char> },
}

impl View for NativeCall {
    type V = CallView;

    open spec fn view(&self) -> CallView {
        match self {
            NativeCall::Environment => CallView::Environment,
            NativeCall::Diagnostics => CallView::Diagnostics,
            NativeCall::Windows => CallView::Windows,
            NativeCall::ResizeWindow { window_id, width, height } => CallView::ResizeWindow {
                window_id: window_id@,
                width: *width,
                height: *height,
            },
            NativeCall::Screenshot { window_id } => CallView::Screenshot {
                window_id: text::optional(*window_id),
            },
            NativeCall::CaptureNextFrame { window_id, after_commit_serial, timeout_ms } => {
                CallView::CaptureNextFrame {
                    window_id: text::optional(*window_id),
                    after_commit_serial: *after_commit_serial,
                    timeout_ms: *timeout_ms,
                }
            },
            NativeCall::PointerEvent { window_id, event } => CallView::PointerEvent {
                window_id: text::optional(*window_id),
                event: event@,
            },
            NativeCall::KeyboardEvent { window_id, event } => CallView::KeyboardEvent {
                window_id: text::optional(*window_id),
                event: event@,
            },
            NativeCall::KeyboardTextPlan { window_id, text } => CallView::KeyboardTextPlan {
                window_id: text::optional(*window_id),
                text: text@,
            },
        }
    }
}

/// The characters of an argument that is a string.
pub open spec fn text_argument(args: Seq<char>, key: Seq<char>) -> Option<Seq<char>> {
    if json::json_fault(args) is None {
        json::json_text(args, key)
    } else {
        None
    }
}

/// The number of an argument that is one.
pub open spec fn number_argument(args: Seq<char>, key: Seq<char>) -> Option<u64> {
    if json::json_fault(args) is None {
        json::json_number(args, key)
    } else {
        None
    }
}

/// An argument, as JSON.
pub open spec fn part_argument(args: Seq<char>, key: Seq<char>) -> Option<Seq<char>> {
    if json::json_fault(args) is None {
        json::json_part(args, key)
    } else {
        None
    }
}

/// A number that fits into 32 bits.
pub open spec fn small(number: Option<u64>) -> Option<u32> {
    match number {
        Some(value) => if value <= u32::MAX {
            Some(value as u32)
        } else {
            None
        },
        None => None,
    }
}

/// The arguments of a call of the runtime that may count.
#[derive(Debug, PartialEq, Eq)]
pub struct CallArguments {
    pub window_id: Option<String>,
    pub width: Option<u64>,
    pub height: Option<u64>,
    pub after_commit_serial: Option<u64>,
    pub timeout_ms: Option<u64>,
    pub event: Option<String>,
    pub text: Option<String>,
}

/// The value of the arguments of a call.
#[verifier::ext_equal]
pub struct ArgumentsView {
    pub window_id: Option<Seq<char>>,
    pub width: Option<u64>,
    pub height: Option<u64>,
    pub after_commit_serial: Option<u64>,
    pub timeout_ms: Option<u64>,
    pub event: Option<Seq<char>>,
    pub text: Option<Seq<char>>,
}

impl View for CallArguments {
    type V = ArgumentsView;

    open spec fn view(&self) -> ArgumentsView {
        ArgumentsView {
            window_id: text::optional(self.window_id),
            width: self.width,
            height: self.height,
            after_commit_serial: self.after_commit_serial,
            timeout_ms: self.timeout_ms,
            event: text::optional(self.event),
            text: text::optional(self.text),
        }
    }
}

/// The arguments in a text that holds them in JSON.
pub open spec fn arguments_of(args: Seq<char>) -> ArgumentsView {
    ArgumentsView {
        window_id: text_argument(args, "windowId"@),
        width: number_argument(args, "width"@),
        height: number_argument(args, "height"@),
        after_commit_serial: number_argument(args, "afterCommitSerial"@),
        timeout_ms: number_argument(args, "timeoutMs"@),
        event: part_argument(args, "event"@),
        text: text_argument(args, "text"@),
    }
}

/// The call that a method with arguments is, or why it is none.
pub open spec fn chosen_call(method: Seq<char>, args: ArgumentsView) -> Result<
    CallView,
    Seq<char>,
> {
    if method == "environment"@ {
        Ok(CallView::Environment)
    } else if method == "diagnostics"@ {
        Ok(CallView::Diagnostics)
    } else if method == "windows"@ {
        Ok(CallView::Windows)
    } else if method == "resize_window"@ {
        match (args.window_id, small(args.width), small(args.height)) {
            (None, _, _) => Err("resizeWindow requires windowId"@),
            (_, None, _) => Err("resizeWindow requires a positive integer width"@),
            (_, _, None) => Err("resizeWindow requires a positive integer height"@),
            (Some(window_id), Some(width), Some(height)) => Ok(
                CallView::ResizeWindow { window_id, width, height },
            ),
        }
    } else if method == "screenshot"@ {
        Ok(CallView::Screenshot { window_id: args.window_id })
    } else if method == "capture_next_frame"@ {
        Ok(
            CallView::CaptureNextFrame {
                window_id: args.window_id,
                after_commit_serial: args.after_commit_serial,
                timeout_ms: args.timeout_ms,
            },
        )
    } else if method == "pointer_event"@ {
        match args.event {
            None => Err("pointerEvent requires event"@),
            Some(event) => Ok(CallView::PointerEvent { window_id: args.window_id, event }),
        }
    } else if method == "keyboard_event"@ {
        match args.event {
            None => Err("keyboardEvent requires event"@),
            Some(event) => Ok(CallView::KeyboardEvent { window_id: args.window_id, event }),
        }
    } else if method == "keyboard_text_plan"@ {
        match args.text {
            None => Err("typeText requires text"@),
            Some(text) => Ok(CallView::KeyboardTextPlan { window_id: args.window_id, text }),
        }
    } else {
        Err("unknown JavaScript native call `"@ + method + "`"@)
    }
}

/// Reads an argument that is a string.
pub fn optional_string(args: &str, key: &str) -> (found: Option<String>)
    ensures
        text::optional(found) == text_argument(args@, key@),
{
    match text_member(args, key) {
        Ok(found) => found,
        Err(_) => None,
    }
}

fn optional_number(args: &str, key: &str) -> (found: Option<u64>)
    ensures
        found == number_argument(args@, key@),
{
    match number_member(args, key) {
        Ok(found) => found,
        Err(_) => None,
    }
}

fn optional_part(args: &str, key: &str) -> (found: Option<String>)
    ensures
        text::optional(found) == part_argument(args@, key@),
{
    match part_member(args, key) {
        Ok(found) => found,
        Err(_) => None,
    }
}

fn small_number(number: Option<u64>) -> (found: Option<u32>)
    ensures
        found == small(number),
{
    match number {
        Some(value) => if value <= u32::MAX as u64 {
            Some(value as u32)
        } else {
            None
        },
        None => None,
    }
}

/// Says which call a method with arguments is.
pub fn choose_call(method: &str, args: CallArguments) -> (call: Result<NativeCall, String>)
    ensures
        text::outcome(call) == chosen_call(method@, args@),
{
    if str_eq(method, "environment") {
        return Ok(NativeCall::Environment);
    }
    if str_eq(method, "diagnostics") {
        return Ok(NativeCall::Diagnostics);
    }
    if str_eq(method, "windows") {
        return Ok(NativeCall::Windows);
    }
    let CallArguments {
        window_id,
        width,
        height,
        after_commit_serial,
        timeout_ms,
        event,
        text: typed,
    } = args;
    if str_eq(method, "resize_window") {
        let window_id = match window_id {
            Some(window_id) => window_id,
            None => return Err("resizeWindow requires windowId".to_owned()),
        };
        let width: u32 = match small_number(width) {
            Some(width) => width,
            None => return Err("resizeWindow requires a positive integer width".to_owned()),
        };
        let height: u32 = match small_number(height) {
            Some(height) => height,
            None => return Err("resizeWindow requires a positive integer height".to_owned()),
        };
        return Ok(NativeCall::ResizeWindow { window_id, width, height });
    }
    if str_eq(method, "screenshot") {
        return Ok(NativeCall::Screenshot { window_id });
    }
    if str_eq(method, "capture_next_frame") {
        return Ok(NativeCall::CaptureNextFrame { window_id, after_commit_serial, timeout_ms });
    }
    if str_eq(method, "pointer_event") {
        return match event {
            Some(event) => Ok(NativeCall::PointerEvent { window_id, event }),
            None => Err("pointerEvent requires event".to_owned()),
        };
    }
    if str_eq(method, "keyboard_event") {
        return match event {
            Some(event) => Ok(NativeCall::KeyboardEvent { window_id, event }),
            None => Err("keyboardEvent requires event".to_owned()),
        };
    }
    if str_eq(method, "keyboard_text_plan") {
        return match typed {
            Some(text) => Ok(NativeCall::KeyboardTextPlan { window_id, text }),
            None => Err("typeText requires text".to_owned()),
        };
    }
    let mut message = "unknown JavaScript native call `".to_owned();
    message.append(method);
    message.append("`");
    Err(message)
}

/// Reads a call of the runtime: its method, and its arguments in JSON.
pub fn read_native_call(method: &str, args: &str) -> (call: Result<NativeCall, String>)
    ensures
        text::outcome(call) == chosen_call(method@, arguments_of(args@)),
{
    choose_call(
        method,
        CallArguments {
            window_id: optional_string(args, "windowId"),
            width: optional_number(args, "width"),
            height: optional_number(args, "height"),
            after_commit_serial: optional_number(args, "afterCommitSerial"),
            timeout_ms: optional_number(args, "timeoutMs"),
            event: optional_part(args, "event"),
            text: optional_string(args, "text"),
        },
    )
}

/// What is wrong with a note on the colors as JSON, if there is a note and anything
/// is.
pub open spec fn note_fault(note: Result<Option<Seq<char>>, Seq<char>>) -> Option<Seq<char>> {
    match note {
        Ok(Some(color)) => json::json_fault(color),
        _ => None,
    }
}

/// A picture that is kept, with its size and the note on its colors, given what is
/// wrong with the note as JSON.
pub open spec fn described(
    path: Seq<char>,
    bytes: Seq<u8>,
    size: Result<(u32, u32), Seq<char>>,
    note: Result<Option<Seq<char>>, Seq<char>>,
    fault: Option<Seq<char>>,
) -> Result<(ImageView, u32, u32), Seq<char>> {
    match (size, note, fault) {
        (Err(message), _, _) => Err("captured invalid PNG: "@ + message),
        (_, Err(message), _) => Err(message),
        (_, _, Some(message)) => Err(message),
        (Ok((width, height)), Ok(color), None) => Ok(
            (ImageView { color, bytes, path }, width, height),
        ),
    }
}

/// A picture that is kept, with its size.
pub open spec fn retained(path: Seq<char>, bytes: Seq<u8>) -> Result<
    (ImageView, u32, u32),
    Seq<char>,
> {
    described(
        path,
        bytes,
        picture::image_size(bytes),
        picture::color_note(bytes),
        note_fault(picture::color_note(bytes)),
    )
}

/// The value of a picture that is kept.
pub open spec fn described_value(
    image: Result<(JsConsoleImage, u32, u32), String>,
) -> Result<(ImageView, u32, u32), Seq<char>> {
    match image {
        Ok((kept, width, height)) => Ok((kept@, width, height)),
        Err(message) => Err(message@),
    }
}

/// A picture in which the size and a note on the colors in JSON are found is kept
/// with both.
pub proof fn color_note_is_retained(
    path: Seq<char>,
    bytes: Seq<u8>,
    width: u32,
    height: u32,
    color: Seq<char>,
)
    ensures
        picture::image_size(bytes) == Ok::<(u32, u32), Seq<char>>((width, height))
            && picture::color_note(bytes) == Ok::<Option<Seq<char>>, Seq<char>>(Some(color))
            && json::json_fault(color) is None ==> retained(path, bytes) == Ok::<
            (ImageView, u32, u32),
            Seq<char>,
        >((ImageView { color: Some(color), bytes, path }, width, height)),
{
}

/// Describes a picture that was kept at a place, given its size, the note on its
/// colors and what is wrong with the note as JSON.
pub fn describe_image(
    path: String,
    bytes: Vec<u8>,
    size: Result<(u32, u32), String>,
    note: Result<Option<String>, String>,
    fault: Option<String>,
) -> (image: Result<(JsConsoleImage, u32, u32), String>)
    ensures
        described_value(image) == described(
            path@,
            bytes@,
            text::outcome(size),
            picture::note_value(note),
            text::optional(fault),
        ),
{
    let (width, height): (u32, u32) = match size {
        Ok(size) => size,
        Err(error) => {
            let mut message = "captured invalid PNG: ".to_owned();
            message.append(error.as_str());
            return Err(message);
        },
    };
    let color = match note {
        Ok(color) => color,
        Err(message) => return Err(message),
    };
    if let Some(message) = fault {
        return Err(message);
    }
    Ok((JsConsoleImage { color, bytes, path }, width, height))
}

fn fault_of_note(note: &Result<Option<String>, String>) -> (fault: Option<String>)
    ensures
        text::optional(fault) == note_fault(picture::note_value(*note)),
{
    match note {
        Ok(Some(color)) => match check_json(color.as_str()) {
            Ok(_) => None,
            Err(fault) => Some(fault),
        },
        _ => None,
    }
}

/// Describes a picture that was kept at a place: the picture with the note on its
/// colors, and its size.
pub fn retained_image(path: String, bytes: Vec<u8>) -> (image: Result<
    (JsConsoleImage, u32, u32),
    String,
>)
    ensures
        described_value(image) == retained(path@, bytes@),
{
    let size = picture_size(&bytes);
    let note = find_color_note(&bytes);
    let fault = fault_of_note(&note);
    describe_image(path, bytes, size, note, fault)
}

/// What a caller is told of a picture, and the picture as it is handed over. Scales
/// are told as a numerator and a denominator.
#[derive(Debug, PartialEq, Eq)]
pub struct ImageReport {
    pub path: String,
    pub data: String,
    pub full: (u32, u32),
    pub preview: (u32, u32),
    pub x_scale: (u32, u32),
    pub y_scale: (u32, u32),
    pub coordinate_space: String,
    pub color: Option<String>,
}

/// The value of a report.
#[verifier::ext_equal]
pub struct ReportView {
    pub path: Seq<char>,
    pub data: Seq<char>,
    pub full: (u32, u32),
    pub preview: (u32, u32),
    pub x_scale: (u32, u32),
    pub y_scale: (u32, u32),
    pub coordinate_space: Seq<char>,
    pub color: Option<Seq<char>>,
}

impl View for ImageReport {
    type V = ReportView;

    open spec fn view(&self) -> ReportView {
        ReportView {
            path: self.path@,
            data: self.data@,
            full: self.full,
            preview: self.preview,
            x_scale: self.x_scale,
            y_scale: self.y_scale,
            coordinate_space: self.coordinate_space@,
            color: text::optional(self.color),
        }
    }
}

/// What a caller is told of a picture that is handed over: coordinates in a preview
/// are scaled up to those of the whole picture.
pub open spec fn reported(image: ImageView, shown: EmbeddedView) -> ReportView {
    ReportView {
        path: image.path,
        data: shown.data,
        full: (shown.full_width, shown.full_height),
        preview: (shown.width, shown.height),
        x_scale: if shown.reduced {
            (shown.full_width, shown.width)
        } else {
            (1, 1)
        },
        y_scale: if shown.reduced {
            (shown.full_height, shown.height)
        } else {
            (1, 1)
        },
        coordinate_space: picture::coordinate_text(shown.reduced),
        color: image.color,
    }
}

/// Reports a picture, given how it is handed over.
pub fn report_image(image: &JsConsoleImage, shown: EmbeddedImage) -> (report: ImageReport)
    ensures
        report@ == reported(image@, shown@),
{
    let (x_scale, y_scale): ((u32, u32), (u32, u32)) = if shown.reduced {
        ((shown.full_width, shown.width), (shown.full_height, shown.height))
    } else {
        ((1, 1), (1, 1))
    };
    ImageReport {
        path: image.path.clone(),
        data: shown.data,
        full: (shown.full_width, shown.full_height),
        preview: (shown.width, shown.height),
        x_scale,
        y_scale,
        coordinate_space: coordinate_space(shown.reduced),
        color: copy_text(&image.color),
    }
}

/// Reports a picture of an evaluation. Nothing comes where the picture cannot be
/// handed over because its text would be longer than memory can hold.
pub fn image_report(image: &JsConsoleImage) -> (report: Option<ImageReport>)
    ensures
        match report {
            Some(told) => told@ == reported(
                image@,
                picture::embedded(
                    image.bytes@,
                    picture::possible_preview(image.bytes@),
                    picture::image_size(image.bytes@),
                ),
            ),
            None => !picture::fits_base64(
                match picture::possible_preview(image.bytes@) {
                    Some(preview) => preview.0,
                    None => image.bytes@,
                },
            ),
        },
{
    match embedded_image(&image.bytes) {
        Some(shown) => Some(report_image(image, shown)),
        None => None,
    }
}

/// The note on a picture's colors is in its report, however the picture is handed
/// over, and a picture that is handed over whole has its own coordinates.
pub proof fn report_keeps_the_color_note(image: ImageView, shown: EmbeddedView)
    ensures
        reported(image, shown).color == image.color,
        reported(image, shown).path == image.path,
        !shown.reduced ==> reported(image, shown).x_scale == (1u32, 1u32) && reported(
            image,
            shown,
        ).y_scale == (1u32, 1u32),
{
}

} // verus!
