//! The execution bridge: everything this crate decides about one invocation
//! of the foreign filtering engine.
//!
//! An invocation proceeds in fixed order: the options value is validated and
//! translated into the engine's native flag representation
//! ([`begin_invocation`]); the driver compiles the filter program and, only if
//! compilation succeeded, evaluates the input; each engine outcome is fed back
//! as an [`EngineEvent`] and [`bridge_step`] decides the next phase and
//! action. Every terminal transition demands [`BridgeAction::Finish`], which
//! obliges the driver to release all engine resources on success and failure
//! paths alike. Engine diagnostics are carried verbatim into [`JqError`].

use vstd::prelude::*;
use vstd::string::StringExecFns;
use vstd::string::StringSliceAdditionalSpecFns;

use crate::options::JqColorization;
use crate::options::JqIndentation;
use crate::options::JqOptions;

verus! {

/// Native flag bit: emit string results raw, without quoting and escaping.
pub const JQ_FLAG_RAW_OUTPUT: u32 = 0x1;

/// Native flag bit: treat each input chunk as an opaque string.
pub const JQ_FLAG_RAW_INPUT: u32 = 0x2;

/// Native flag bit: present all input to the filter as a single array.
pub const JQ_FLAG_SLURP: u32 = 0x4;

/// Native flag bit: emit object keys in sorted order.
pub const JQ_FLAG_SORT_KEYS: u32 = 0x8;

/// Native flag bit: decorate the output with ANSI colors.
pub const JQ_FLAG_COLORIZE: u32 = 0x10;

/// Native flag bit: pretty-print the output instead of rendering it compact.
pub const JQ_FLAG_PRETTY: u32 = 0x20;

/// Native flag bit: indent with tabs rather than spaces when pretty-printing.
pub const JQ_FLAG_TABS: u32 = 0x40;

/// The engine-native form of a validated options value: a flag word, an
/// indent width in spaces (zero when compact or indenting with tabs), and an
/// optional custom color palette to install before evaluation.
pub struct JqNativeFlags {
    /// Bitwise or of the `JQ_FLAG_*` bits demanded by the options.
    pub dump_flags: u32,
    /// Spaces per indentation level; meaningful only when `JQ_FLAG_PRETTY` is
    /// set and `JQ_FLAG_TABS` is not.
    pub indent_width: u32,
    /// The custom palette string, present exactly for custom colorization.
    pub palette: Option<String>,
}

/// The error taxonomy of the bridge. Every failure of an invocation is
/// returned as one of these values; none is recovered or retried internally.
#[derive(Debug)]
pub enum JqError {
    /// The options value is representable but invalid (negative space count,
    /// malformed custom palette). Detected before the engine is touched.
    Configuration(String),
    /// The filter program failed to compile; the engine's diagnostic text is
    /// carried verbatim.
    Compile(String),
    /// The engine raised an error while processing input; the engine's
    /// diagnostic text is carried verbatim.
    Evaluation(String),
}

impl JqError {
    /// The characters of the human-readable diagnostic this error carries,
    /// whichever kind it is.
    pub open spec fn diagnostic_view(&self) -> Seq<char> {
        match self {
            JqError::Configuration(m) => m@,
            JqError::Compile(m) => m@,
            JqError::Evaluation(m) => m@,
        }
    }

    /// The human-readable diagnostic carried by this error.
    pub fn diagnostic(&self) -> (m: &String)
        ensures
            m@ == self.diagnostic_view(),
    {
        match self {
            JqError::Configuration(m) => m,
            JqError::Compile(m) => m,
            JqError::Evaluation(m) => m,
        }
    }
}

/// The diagnostic reported for a negative space count.
pub open spec fn negative_spaces_diagnostic() -> Seq<char> {
    "invalid indentation: negative space count"@
}

/// The diagnostic reported for a malformed custom palette string.
pub open spec fn malformed_palette_diagnostic() -> Seq<char> {
    "invalid colorization: malformed palette string"@
}

/// A byte the engine accepts inside a palette string: an ASCII digit, `:`
/// (the field separator) or `;` (the attribute separator).
pub open spec fn palette_byte_ok(b: u8) -> bool {
    (48 <= b && b <= 57) || b == 58 || b == 59
}

/// A palette string is syntactically acceptable to the engine when every one
/// of its bytes is a digit, `:` or `;`.
pub open spec fn palette_ok(bytes: Seq<u8>) -> bool {
    forall|i: int| 0 <= i < bytes.len() ==> #[trigger] palette_byte_ok(bytes[i])
}

/// The options carry a space count below zero.
pub open spec fn spaces_invalid(o: JqOptions<'_>) -> bool {
    o.indentation matches JqIndentation::Spaces(n) && n < 0
}

/// The options carry a custom palette the engine would reject.
pub open spec fn palette_invalid(o: JqOptions<'_>) -> bool {
    o.colorization matches JqColorization::Custom(p) && !palette_ok(p.spec_bytes())
}

/// The options pass the bridge's validation step.
pub open spec fn options_valid(o: JqOptions<'_>) -> bool {
    !spaces_invalid(o) && !palette_invalid(o)
}

/// The native flag bit demanded by a colorization choice.
pub open spec fn color_flag_of(c: JqColorization<'_>) -> u32 {
    match c {
        JqColorization::Monochrome => 0u32,
        JqColorization::Colorize => JQ_FLAG_COLORIZE,
        JqColorization::Custom(_) => JQ_FLAG_COLORIZE,
    }
}

/// The native flag bits demanded by an indentation choice.
pub open spec fn indent_flag_of(ind: JqIndentation) -> u32 {
    match ind {
        JqIndentation::Compact => 0u32,
        JqIndentation::Tabs => JQ_FLAG_PRETTY | JQ_FLAG_TABS,
        JqIndentation::Spaces(_) => JQ_FLAG_PRETTY,
    }
}

/// The whole native flag word for an options value: one bit per boolean
/// option, plus the color and indentation bits.
pub open spec fn flags_of(o: JqOptions<'_>) -> u32 {
    (if o.raw_output {
        JQ_FLAG_RAW_OUTPUT
    } else {
        0u32
    }) | (if o.raw_input {
        JQ_FLAG_RAW_INPUT
    } else {
        0u32
    }) | (if o.slurp {
        JQ_FLAG_SLURP
    } else {
        0u32
    }) | (if o.sort_keys {
        JQ_FLAG_SORT_KEYS
    } else {
        0u32
    }) | color_flag_of(o.colorization) | indent_flag_of(o.indentation)
}

/// The indent width handed to the engine: the space count for space
/// indentation, zero otherwise.
pub open spec fn indent_width_of(ind: JqIndentation) -> u32
    recommends
        !(ind matches JqIndentation::Spaces(n) && n < 0),
{
    match ind {
        JqIndentation::Spaces(n) => n as u32,
        _ => 0u32,
    }
}

/// A native configuration is the faithful translation of an options value.
pub open spec fn flags_match(o: JqOptions<'_>, f: JqNativeFlags) -> bool {
    &&& f.dump_flags == flags_of(o)
    &&& f.indent_width == indent_width_of(o.indentation)
    &&& match o.colorization {
        JqColorization::Custom(p) => f.palette matches Some(s) && s@ == p@,
        _ => f.palette is None,
    }
}

/// Decides whether the engine would accept `palette` as a custom color
/// palette: every byte must be an ASCII digit, `:` or `;`.
pub fn palette_acceptable(palette: &str) -> (r: bool)
    ensures
        r == palette_ok(palette.spec_bytes()),
{
    let bytes = palette.as_bytes();
    let n: usize = bytes.len();
    let mut i: usize = 0;
    while i < n
        invariant
            i <= n,
            n == bytes@.len(),
            bytes@ == palette.spec_bytes(),
            forall|j: int| 0 <= j < i ==> #[trigger] palette_byte_ok(bytes@[j]),
        decreases n - i,
    {
        let b: u8 = bytes[i];
        if !((48 <= b && b <= 57) || b == 58 || b == 59) {
            proof {
                assert(!palette_byte_ok(bytes@[i as int]));
            }
            return false;
        }
        i = i + 1;
    }
    true
}

/// Validates an options value and translates it into the engine's native
/// representation. Representable-but-invalid values are rejected here, before
/// the engine is ever touched: a negative space count first, then a malformed
/// custom palette. Valid options translate exactly as `flags_match` states.
pub fn translate_options(options: &JqOptions<'_>) -> (r: Result<JqNativeFlags, JqError>)
    ensures
        spaces_invalid(*options) ==> (r matches Err(JqError::Configuration(m)) && m@
            == negative_spaces_diagnostic()),
        !spaces_invalid(*options) && palette_invalid(*options) ==> (r matches Err(
            JqError::Configuration(m),
        ) && m@ == malformed_palette_diagnostic()),
        options_valid(*options) ==> (r matches Ok(f) && flags_match(*options, f)),
{
    let indent_width: u32;
    match options.indentation {
        JqIndentation::Spaces(n) => {
            if n < 0 {
                return Err(
                    JqError::Configuration(
                        String::from_str("invalid indentation: negative space count"),
                    ),
                );
            }
            indent_width = n as u32;
        },
        _ => {
            indent_width = 0;
        },
    }
    let palette: Option<String>;
    match options.colorization {
        JqColorization::Custom(p) => {
            if !palette_acceptable(p) {
                return Err(
                    JqError::Configuration(
                        String::from_str("invalid colorization: malformed palette string"),
                    ),
                );
            }
            palette = Some(p.to_owned());
        },
        _ => {
            palette = None;
        },
    }
    let dump_flags: u32 = (if options.raw_output {
        JQ_FLAG_RAW_OUTPUT
    } else {
        0u32
    }) | (if options.raw_input {
        JQ_FLAG_RAW_INPUT
    } else {
        0u32
    }) | (if options.slurp {
        JQ_FLAG_SLURP
    } else {
        0u32
    }) | (if options.sort_keys {
        JQ_FLAG_SORT_KEYS
    } else {
        0u32
    }) | (match options.colorization {
        JqColorization::Monochrome => 0u32,
        JqColorization::Colorize => JQ_FLAG_COLORIZE,
        JqColorization::Custom(_) => JQ_FLAG_COLORIZE,
    }) | (match options.indentation {
        JqIndentation::Compact => 0u32,
        JqIndentation::Tabs => JQ_FLAG_PRETTY | JQ_FLAG_TABS,
        JqIndentation::Spaces(_) => JQ_FLAG_PRETTY,
    });
    Ok(JqNativeFlags { dump_flags, indent_width, palette })
}

/// The phase an invocation is in. One invocation moves forward only:
/// compiling, then evaluating, then finished.
pub enum BridgePhase {
    /// The filter program is to be compiled against a fresh engine context
    /// under this native configuration.
    Compiling(JqNativeFlags),
    /// The compiled filter is to be fed the input under this native
    /// configuration.
    Evaluating(JqNativeFlags),
    /// The invocation is complete, with the output string or the first error
    /// encountered.
    Finished(Result<String, JqError>),
}

/// What the driver of the foreign engine must do next.
pub enum BridgeAction {
    /// Construct a fresh engine context and compile the filter program
    /// against it.
    CompileProgram,
    /// Feed the input to the compiled filter and collect the output records.
    EvaluateInput,
    /// Release every engine resource acquired during the invocation —
    /// compiled program, evaluation context, intermediate buffers — and
    /// return the result carried by the finished phase.
    Finish,
}

/// The outcome of the engine operation the driver was asked to perform.
pub enum EngineEvent {
    /// The filter program compiled.
    CompileSucceeded,
    /// The filter program failed to compile; carries the engine's diagnostic.
    CompileFailed(String),
    /// Evaluation produced these output records, in order.
    EvalSucceeded(Vec<String>),
    /// The engine raised an error while processing input; carries the
    /// engine's diagnostic.
    EvalFailed(String),
}

/// The views of a sequence of output records.
pub open spec fn record_views(records: Seq<String>) -> Seq<Seq<char>> {
    records.map_values(|s: String| s@)
}

/// The joined output of an invocation: every record in order, each followed
/// by one newline, per the engine's separator and trailing-newline
/// convention. Zero records join to the empty string.
pub open spec fn spec_join(records: Seq<Seq<char>>) -> Seq<char>
    decreases records.len(),
{
    if records.len() == 0 {
        Seq::empty()
    } else {
        spec_join(records.drop_last()) + records.last() + seq!['\n']
    }
}

/// Joins the output records the engine produced into the single string the
/// caller receives: each record in order, each followed by one newline.
pub fn join_outputs(records: &Vec<String>) -> (out: String)
    ensures
        out@ == spec_join(record_views(records@)),
{
    let mut out = String::new();
    let n: usize = records.len();
    let mut i: usize = 0;
    while i < n
        invariant
            i <= n,
            n == records@.len(),
            out@ == spec_join(record_views(records@.take(i as int))),
        decreases n - i,
    {
        out.append(records[i].as_str());
        out.append("\n");
        proof {
            reveal_strlit("\n");
            let prefix = record_views(records@.take(i as int));
            let next = record_views(records@.take(i + 1 as int));
            assert(next.drop_last() =~= prefix);
            assert(next.last() == records@[i as int]@);
        }
        i = i + 1;
    }
    proof {
        assert(records@.take(n as int) =~= records@);
    }
    out
}

/// Starts one invocation: validates and translates the options. Invalid
/// options finish the invocation at once with a configuration error — the
/// engine is never touched — while valid options demand that the driver
/// compile the filter program.
pub fn begin_invocation(options: &JqOptions<'_>) -> (r: (BridgePhase, BridgeAction))
    ensures
        spaces_invalid(*options) ==> (r.0 matches BridgePhase::Finished(res) && res matches Err(
            JqError::Configuration(m),
        ) && m@ == negative_spaces_diagnostic() && r.1 is Finish),
        !spaces_invalid(*options) && palette_invalid(*options) ==> (r.0 matches
            BridgePhase::Finished(res) && res matches Err(JqError::Configuration(m)) && m@
            == malformed_palette_diagnostic() && r.1 is Finish),
        options_valid(*options) ==> (r.0 matches BridgePhase::Compiling(f) && flags_match(
            *options,
            f,
        ) && r.1 is CompileProgram),
{
    match translate_options(options) {
        Ok(flags) => (BridgePhase::Compiling(flags), BridgeAction::CompileProgram),
        Err(e) => (BridgePhase::Finished(Err(e)), BridgeAction::Finish),
    }
}

/// Advances one invocation by one engine outcome.
///
/// A compile failure finishes the invocation with a compile error carrying
/// the engine's diagnostic verbatim — evaluation is never demanded. A compile
/// success demands evaluation under the same native configuration. An
/// evaluation outcome finishes the invocation: the records joined on success,
/// an evaluation error carrying the diagnostic verbatim on failure. Every
/// finishing transition demands `Finish`, so engine resources are released on
/// success and failure paths alike.
pub fn bridge_step(phase: BridgePhase, event: EngineEvent) -> (r: (BridgePhase, BridgeAction))
    requires
        !(phase is Finished),
        phase is Compiling ==> (event is CompileSucceeded || event is CompileFailed),
        phase is Evaluating ==> (event is EvalSucceeded || event is EvalFailed),
    ensures
        phase matches BridgePhase::Compiling(f) ==> (event is CompileSucceeded ==> (r.0
            == BridgePhase::Evaluating(f) && r.1 is EvaluateInput)),
        event matches EngineEvent::CompileFailed(d) ==> (phase is Compiling ==> (r.0 matches
            BridgePhase::Finished(res) && res matches Err(JqError::Compile(m)) && m == d && r.1
            is Finish)),
        event matches EngineEvent::EvalSucceeded(records) ==> (phase is Evaluating ==> (r.0 matches
            BridgePhase::Finished(res) && res matches Ok(out) && out@ == spec_join(
            record_views(records@),
        ) && r.1 is Finish)),
        event matches EngineEvent::EvalFailed(d) ==> (phase is Evaluating ==> (r.0 matches
            BridgePhase::Finished(res) && res matches Err(JqError::Evaluation(m)) && m == d && r.1
            is Finish)),
{
    match (phase, event) {
        (BridgePhase::Compiling(flags), EngineEvent::CompileSucceeded) => (
            BridgePhase::Evaluating(flags),
            BridgeAction::EvaluateInput,
        ),
        (BridgePhase::Compiling(_), EngineEvent::CompileFailed(d)) => (
            BridgePhase::Finished(Err(JqError::Compile(d))),
            BridgeAction::Finish,
        ),
        (BridgePhase::Evaluating(_), EngineEvent::EvalSucceeded(records)) => (
            BridgePhase::Finished(Ok(join_outputs(&records))),
            BridgeAction::Finish,
        ),
        (BridgePhase::Evaluating(_), EngineEvent::EvalFailed(d)) => (
            BridgePhase::Finished(Err(JqError::Evaluation(d))),
            BridgeAction::Finish,
        ),
        _ => vstd::pervasive::unreached(),
    }
}

/// The translation step is a function of the options alone: any two native
/// configurations that faithfully translate the same options value carry the
/// same flag word, the same indent width, and character-for-character equal
/// palettes. Together with the exact contracts of `begin_invocation` and
/// `bridge_step`, this pins the bridge's half of invocation determinism: no
/// hidden state of this layer can make two identical invocations differ.
pub proof fn lemma_translation_deterministic(o: JqOptions<'_>, f1: JqNativeFlags, f2: JqNativeFlags)
    requires
        flags_match(o, f1),
        flags_match(o, f2),
    ensures
        f1.dump_flags == f2.dump_flags,
        f1.indent_width == f2.indent_width,
        f1.palette matches Some(p1) ==> (f2.palette matches Some(p2) && p1@ == p2@),
        f1.palette is None ==> f2.palette is None,
{
}

/// Each option occupies its own bit of the native flag word: whatever the
/// rest of the options say, every boolean option, the colorization choice and
/// the indentation family can be read back from the single bit assigned to
/// it. No two options collide in the translated word.
pub proof fn lemma_flag_word_faithful(o: JqOptions<'_>)
    ensures
        (flags_of(o) & JQ_FLAG_RAW_OUTPUT != 0) == o.raw_output,
        (flags_of(o) & JQ_FLAG_RAW_INPUT != 0) == o.raw_input,
        (flags_of(o) & JQ_FLAG_SLURP != 0) == o.slurp,
        (flags_of(o) & JQ_FLAG_SORT_KEYS != 0) == o.sort_keys,
        (flags_of(o) & JQ_FLAG_COLORIZE != 0) == !(o.colorization is Monochrome),
        (flags_of(o) & JQ_FLAG_PRETTY != 0) == !(o.indentation is Compact),
        (flags_of(o) & JQ_FLAG_TABS != 0) == (o.indentation is Tabs),
{
    let a: u32 = if o.raw_output {
        JQ_FLAG_RAW_OUTPUT
    } else {
        0u32
    };
    let b: u32 = if o.raw_input {
        JQ_FLAG_RAW_INPUT
    } else {
        0u32
    };
    let s: u32 = if o.slurp {
        JQ_FLAG_SLURP
    } else {
        0u32
    };
    let k: u32 = if o.sort_keys {
        JQ_FLAG_SORT_KEYS
    } else {
        0u32
    };
    let c: u32 = color_flag_of(o.colorization);
    let d: u32 = indent_flag_of(o.indentation);
    assert(0x20u32 | 0x40u32 == 0x60u32) by (bit_vector);
    assert(flags_of(o) == (a | b | s | k | c | d));
    assert((((a | b | s | k | c | d) & 0x1u32 != 0) == (a == 0x1u32)) && (((a | b | s | k | c | d)
        & 0x2u32 != 0) == (b == 0x2u32)) && (((a | b | s | k | c | d) & 0x4u32 != 0) == (s
        == 0x4u32)) && (((a | b | s | k | c | d) & 0x8u32 != 0) == (k == 0x8u32)) && (((a | b | s
        | k | c | d) & 0x10u32 != 0) == (c == 0x10u32)) && (((a | b | s | k | c | d) & 0x20u32
        != 0) == (d == 0x20u32 || d == 0x60u32)) && (((a | b | s | k | c | d) & 0x40u32 != 0) == (d
        == 0x60u32))) by (bit_vector)
        requires
            a == 0u32 || a == 0x1u32,
            b == 0u32 || b == 0x2u32,
            s == 0u32 || s == 0x4u32,
            k == 0u32 || k == 0x8u32,
            c == 0u32 || c == 0x10u32,
            d == 0u32 || d == 0x20u32 || d == 0x60u32,
    ;
}

/// An evaluation that produced no output records — as with empty input when
/// slurping is off — finishes with an empty output string, not an error.
pub proof fn lemma_no_records_empty_output(records: Seq<Seq<char>>)
    requires
        records.len() == 0,
    ensures
        spec_join(records) == Seq::<char>::empty(),
{
}

} // verus!

