//! The hint handler that is active while a contract runs that the test only
//! calls into. Of the cheatcodes it offers `print` alone: cheats belong to the
//! test, not to the contracts that it calls.

use crate::error::HintError;
use crate::execution::cheatable_syscall_handler::CheatableSyscallHandler;
use crate::execution::resources::{ResourceTracker, RunResources};
use crate::execution::syscalls::{parse_selector, selector_error_text};
use crate::felt::{
    as_cairo_short_string, be_bytes, decimal_digits, text_len, text_of, to_bytes_be, to_decimal,
    Felt252,
};
use vstd::prelude::*;
use vstd::string::StringExecFns;
use vstd::utf8::{decode_utf8, valid_utf8};

verus! {

/// A hint as the virtual machine presents it to the handler.
#[derive(Debug, PartialEq, Eq)]
pub enum HintPayload {
    /// The call of a cheatcode: the bytes of its selector and the field
    /// elements in its input range, `None` where the range cannot be read
    /// or was not read. `needs_inputs` says for which selectors the handler
    /// reads them.
    Cheatcode { selector: Vec<u8>, inputs: Option<Vec<Felt252>> },
    /// Any other hint.
    Other,
}

/// What is to be done for a hint that the handler accepted.
#[derive(Debug, PartialEq, Eq)]
pub enum HintOutcome {
    /// The hint is handled once these lines are written to the diagnostic
    /// output.
    Output(Vec<String>),
    /// The hint is for the child handler, as it stands.
    Delegate,
}

/// What the handler answers to a hint.
pub enum HintAnswer {
    /// Success, with the lines for the diagnostic output.
    Output(Seq<Seq<char>>),
    /// The hint is left to the child handler.
    Delegate,
    /// An error with these words.
    Failure(Seq<char>),
}

/// The words of the error for an input range that cannot be read.
pub open spec fn input_error_text() -> Seq<char> {
    "Failed to read input data"@
}

/// The words of the error for a cheatcode other than `print`.
pub open spec fn only_print_error_text() -> Seq<char> {
    "Only `print` cheatcode is available in contracts."@
}

/// Whether a byte is an ASCII control character.
pub open spec fn is_control_byte(byte: u8) -> bool {
    byte < 32 || byte == 127
}

/// Whether a byte is a visible ASCII character or a space.
pub open spec fn is_printable_byte(byte: u8) -> bool {
    32 <= byte <= 126
}

/// The short string that a value spells, for the diagnostic output: the
/// bytes of the value as characters, where each one is a visible ASCII
/// character or a space.
pub open spec fn printable_short_string(value: nat) -> Option<Seq<char>> {
    let bytes = be_bytes(value);
    if forall|i: int| 0 <= i < bytes.len() ==> is_printable_byte(#[trigger] bytes[i]) {
        Some(Seq::new(bytes.len(), |i: int| bytes[i] as char))
    } else {
        None
    }
}

/// The line that `print` writes for a value.
pub open spec fn print_line(value: nat) -> Seq<char> {
    "original value: ["@ + decimal_digits(value) + match printable_short_string(value) {
        Some(text) => "], converted to a string: ["@ + text + "]"@,
        None => "]"@,
    }
}

/// The lines that `print` writes for its inputs: one per value, in order.
pub open spec fn print_lines(inputs: Seq<Felt252>) -> Seq<Seq<char>> {
    Seq::new(inputs.len(), |i: int| print_line(inputs[i]@))
}

/// The characters of each line.
pub open spec fn lines_text(lines: Seq<String>) -> Seq<Seq<char>> {
    Seq::new(lines.len(), |i: int| lines[i]@)
}

/// Whether the selector names `print`, the one cheatcode whose inputs the
/// handler reads.
pub open spec fn names_print(selector: Seq<u8>) -> bool {
    valid_utf8(selector) && decode_utf8(selector) == "print"@
}

/// The answer of the handler to a hint. What is no cheatcode call is left to
/// the child. Of a cheatcode call the selector decides: one that is no text
/// is an error, one that names another operation than `print` is refused
/// whatever its inputs are, and only for `print` the inputs are looked at.
pub open spec fn hint_answer(hint: HintPayload) -> HintAnswer {
    match hint {
        HintPayload::Other => HintAnswer::Delegate,
        HintPayload::Cheatcode { selector, inputs } => {
            if !valid_utf8(selector@) {
                HintAnswer::Failure(selector_error_text())
            } else if decode_utf8(selector@) != "print"@ {
                HintAnswer::Failure(only_print_error_text())
            } else {
                match inputs {
                    None => HintAnswer::Failure(input_error_text()),
                    Some(values) => HintAnswer::Output(print_lines(values@)),
                }
            }
        },
    }
}

/// What a result of `execute_hint` says.
pub open spec fn answer_of(result: Result<HintOutcome, HintError>) -> HintAnswer {
    match result {
        Ok(HintOutcome::Output(lines)) => HintAnswer::Output(lines_text(lines@)),
        Ok(HintOutcome::Delegate) => HintAnswer::Delegate,
        Err(error) => HintAnswer::Failure(error.text()),
    }
}

/// Where no byte is zero, the text of a byte string is all of it.
proof fn lemma_text_len_without_zero(bytes: Seq<u8>)
    requires
        forall|i: int| 0 <= i < bytes.len() ==> #[trigger] bytes[i] != 0,
    ensures
        text_len(bytes) == bytes.len(),
    decreases bytes.len(),
{
    if bytes.len() > 0 {
        let rest = bytes.drop_first();
        assert forall|i: int| 0 <= i < rest.len() implies #[trigger] rest[i] != 0 by {
            assert(rest[i] == bytes[i + 1]);
        }
        lemma_text_len_without_zero(rest);
    }
}

/// Whether a control character is among the bytes.
fn has_control_byte(bytes: &Vec<u8>) -> (found: bool)
    ensures
        found <==> exists|i: int| 0 <= i < bytes.len() && is_control_byte(#[trigger] bytes[i]),
{
    let mut i: usize = 0;
    while i < bytes.len()
        invariant
            i <= bytes.len(),
            forall|k: int| 0 <= k < i ==> !is_control_byte(#[trigger] bytes[k]),
        decreases bytes.len() - i,
    {
        let byte: u8 = bytes[i];
        if byte < 32 || byte == 127 {
            return true;
        }
        i += 1;
    }
    false
}

/// The value as a short string, if that is fit for the diagnostic output:
/// there is none where a big-endian byte of the value is a control
/// character, nor where the value spells no short string.
pub fn as_printable_short_string(value: &Felt252) -> (text: Option<String>)
    ensures
        text_of(text) == printable_short_string(value@),
{
    let bytes = to_bytes_be(value);
    if has_control_byte(&bytes) {
        return None;
    }
    let text = as_cairo_short_string(value);
    proof {
        let b = bytes@;
        assert forall|i: int| 0 <= i < b.len() implies !is_control_byte(#[trigger] b[i]) by {}
        lemma_text_len_without_zero(b);
    }
    text
}

/// The line that `print` writes for a value.
fn line_for(value: &Felt252) -> (line: String)
    ensures
        line@ == print_line(value@),
{
    let mut line = String::from_str("original value: [");
    let number = to_decimal(value);
    line.append(number.as_str());
    match as_printable_short_string(value) {
        Some(text) => {
            line.append("], converted to a string: [");
            line.append(text.as_str());
            line.append("]");
            assert(line@ =~= print_line(value@));
        },
        None => {
            line.append("]");
            assert(line@ =~= print_line(value@));
        },
    }
    line
}

/// The lines of the diagnostic output for the inputs of a `print` call, one
/// per value: `original value: [..]` with the value in decimal, followed by
/// `, converted to a string: [..]` where the value spells a printable short
/// string.
pub fn print(inputs: Vec<Felt252>) -> (lines: Vec<String>)
    ensures
        lines_text(lines@) == print_lines(inputs@),
{
    let mut lines: Vec<String> = Vec::new();
    let mut i: usize = 0;
    while i < inputs.len()
        invariant
            i <= inputs.len(),
            lines@.len() == i,
            forall|k: int| 0 <= k < i ==> (#[trigger] lines@[k])@ == print_line(inputs@[k]@),
        decreases inputs.len() - i,
    {
        let line = line_for(&inputs[i]);
        lines.push(line);
        i += 1;
    }
    assert(lines_text(lines@) =~= print_lines(inputs@));
    lines
}

/// Whether the handler reads the inputs of a cheatcode call with this
/// selector: it does so for `print` alone.
pub fn needs_inputs(selector: &[u8]) -> (needed: bool)
    ensures
        needed == names_print(selector@),
{
    match parse_selector(selector) {
        Ok(name) => name == String::from_str("print"),
        Err(_) => false,
    }
}

/// The handler that is the outermost one during a nested contract call. It
/// owns the handler of the test's cheatcodes.
pub struct ContractExecutionSyscallHandler {
    pub child: CheatableSyscallHandler,
}

impl ContractExecutionSyscallHandler {
    /// The handler around `child`.
    #[must_use]
    pub fn wrap(child: CheatableSyscallHandler) -> (handler: ContractExecutionSyscallHandler)
        ensures
            handler.child == child,
    {
        ContractExecutionSyscallHandler { child }
    }

    /// Answers a hint. A cheatcode call is handled here: a selector that is
    /// no text is an error, every cheatcode but `print` is refused at once,
    /// and `print` gives the lines to write, or an error where its input
    /// range cannot be read. Any other hint is for the child.
    pub fn execute_hint(&self, hint: HintPayload) -> (result: Result<HintOutcome, HintError>)
        ensures
            answer_of(result) == hint_answer(hint),
    {
        match hint {
            HintPayload::Cheatcode { selector, inputs } => {
                let name = match parse_selector(selector.as_slice()) {
                    Ok(name) => name,
                    Err(error) => {
                        return Err(error);
                    },
                };
                if name != String::from_str("print") {
                    return Err(
                        HintError::custom("Only `print` cheatcode is available in contracts."),
                    );
                }
                match inputs {
                    Some(values) => Ok(HintOutcome::Output(print(values))),
                    None => Err(HintError::custom("Failed to read input data")),
                }
            },
            HintPayload::Other => Ok(HintOutcome::Delegate),
        }
    }
}

impl ResourceTracker for ContractExecutionSyscallHandler {
    open spec fn tracker(&self) -> RunResources {
        self.child.tracker()
    }

    fn consumed(&self) -> (consumed: bool) {
        self.child.consumed()
    }

    fn consume_step(&mut self)
        ensures
            final(self).child.cheatnet_state == old(self).child.cheatnet_state,
    {
        self.child.consume_step();
    }

    fn get_n_steps(&self) -> (n_steps: Option<usize>) {
        self.child.get_n_steps()
    }

    fn run_resources(&self) -> (resources: &RunResources) {
        self.child.run_resources()
    }
}

/// Inside a nested call every cheatcode but `print` is refused: where the
/// selector is a name other than `print`, the answer is the error that says
/// so, whether the inputs can be read or not.
pub proof fn lemma_only_print_in_contracts(selector: Vec<u8>, inputs: Option<Vec<Felt252>>)
    requires
        valid_utf8(selector@),
        decode_utf8(selector@) != "print"@,
    ensures
        hint_answer(HintPayload::Cheatcode { selector, inputs })
            == HintAnswer::Failure(only_print_error_text()),
{
}

/// The inputs of a cheatcode call bear on the answer for `print` alone: for
/// every other selector the answer is the same whatever the inputs are.
pub proof fn lemma_inputs_matter_for_print_alone(
    selector: Vec<u8>,
    inputs: Option<Vec<Felt252>>,
    others: Option<Vec<Felt252>>,
)
    requires
        !names_print(selector@),
    ensures
        hint_answer(HintPayload::Cheatcode { selector, inputs })
            == hint_answer(HintPayload::Cheatcode { selector, inputs: others }),
{
}

/// The tracker that answers through the whole chain of handlers is that of
/// the innermost execution context.
pub proof fn lemma_tracker_is_innermost(handler: ContractExecutionSyscallHandler)
    ensures
        handler.tracker() == handler.child.child.context.vm_run_resources,
        handler.tracker() == handler.child.tracker(),
        handler.child.tracker() == handler.child.child.tracker(),
{
}

} // verus!
