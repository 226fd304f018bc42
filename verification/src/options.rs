//! The options model: one complete, immutable rendering/parsing configuration
//! for a single engine invocation.
//!
//! A value is created with [`JqOptions::default`] and refined with the pure
//! `with_*` transformations, each of which returns a new value and copies
//! every other field unchanged. No operation mutates its receiver, performs
//! I/O, or can fail; values that are representable but nonsensical (such as a
//! negative space count) are rejected later, by the execution bridge's
//! translation step.

use vstd::prelude::*;

verus! {

/// Options that can be passed to the engine to customize input and output
/// handling.
pub struct JqOptions<'a> {
    /// Output raw strings instead of quoted and escaped ones.
    pub raw_output: bool,
    /// Interpret each input chunk as an opaque string instead of JSON.
    pub raw_input: bool,
    /// Read all input and present it to the filter as a single array.
    pub slurp: bool,
    /// Emit object keys in sorted order.
    pub sort_keys: bool,
    /// ANSI color decoration of the output.
    pub colorization: JqColorization<'a>,
    /// Pretty-printing whitespace of the output.
    pub indentation: JqIndentation,
}

impl<'a> Default for JqOptions<'a> {
    /// The baseline configuration: no raw modes, no slurping, no key sorting,
    /// monochrome, compact output. Total; never fails.
    fn default() -> (r: Self)
        ensures
            !r.raw_output,
            !r.raw_input,
            !r.slurp,
            !r.sort_keys,
            r.colorization is Monochrome,
            r.indentation is Compact,
    {
        JqOptions {
            raw_output: false,
            raw_input: false,
            slurp: false,
            sort_keys: false,
            colorization: JqColorization::Monochrome,
            indentation: JqIndentation::Compact,
        }
    }
}

impl<'a> JqOptions<'a> {
    /// Output raw strings instead of quoted and escaped ones.
    ///
    /// Pure transformation: the result carries the given `raw_output` and
    /// every other field of the receiver unchanged.
    pub fn with_raw_output(&self, raw_output: bool) -> (r: Self)
        ensures
            r.raw_output == raw_output,
            r.raw_input == self.raw_input,
            r.slurp == self.slurp,
            r.sort_keys == self.sort_keys,
            r.colorization == self.colorization,
            r.indentation == self.indentation,
    {
        JqOptions {
            raw_output,
            raw_input: self.raw_input,
            slurp: self.slurp,
            sort_keys: self.sort_keys,
            colorization: self.colorization,
            indentation: self.indentation,
        }
    }

    /// Interpret each input chunk as an opaque string instead of JSON.
    ///
    /// Pure transformation: the result carries the given `raw_input` and
    /// every other field of the receiver unchanged.
    pub fn with_raw_input(&self, raw_input: bool) -> (r: Self)
        ensures
            r.raw_output == self.raw_output,
            r.raw_input == raw_input,
            r.slurp == self.slurp,
            r.sort_keys == self.sort_keys,
            r.colorization == self.colorization,
            r.indentation == self.indentation,
    {
        JqOptions {
            raw_output: self.raw_output,
            raw_input,
            slurp: self.slurp,
            sort_keys: self.sort_keys,
            colorization: self.colorization,
            indentation: self.indentation,
        }
    }

    /// Read all input and present it to the filter as a single array.
    ///
    /// Pure transformation: the result carries the given `slurp` and every
    /// other field of the receiver unchanged.
    pub fn with_slurp(&self, slurp: bool) -> (r: Self)
        ensures
            r.raw_output == self.raw_output,
            r.raw_input == self.raw_input,
            r.slurp == slurp,
            r.sort_keys == self.sort_keys,
            r.colorization == self.colorization,
            r.indentation == self.indentation,
    {
        JqOptions {
            raw_output: self.raw_output,
            raw_input: self.raw_input,
            slurp,
            sort_keys: self.sort_keys,
            colorization: self.colorization,
            indentation: self.indentation,
        }
    }

    /// Emit object keys in sorted order.
    ///
    /// Pure transformation: the result carries the given `sort_keys` and
    /// every other field of the receiver unchanged.
    pub fn with_sort_keys(&self, sort_keys: bool) -> (r: Self)
        ensures
            r.raw_output == self.raw_output,
            r.raw_input == self.raw_input,
            r.slurp == self.slurp,
            r.sort_keys == sort_keys,
            r.colorization == self.colorization,
            r.indentation == self.indentation,
    {
        JqOptions {
            raw_output: self.raw_output,
            raw_input: self.raw_input,
            slurp: self.slurp,
            sort_keys,
            colorization: self.colorization,
            indentation: self.indentation,
        }
    }

    /// Choose the colorization of the output.
    ///
    /// Pure transformation: the result carries the given `colorization` and
    /// every other field of the receiver unchanged.
    pub fn with_colorization(&self, colorization: JqColorization<'a>) -> (r: Self)
        ensures
            r.raw_output == self.raw_output,
            r.raw_input == self.raw_input,
            r.slurp == self.slurp,
            r.sort_keys == self.sort_keys,
            r.colorization == colorization,
            r.indentation == self.indentation,
    {
        JqOptions {
            raw_output: self.raw_output,
            raw_input: self.raw_input,
            slurp: self.slurp,
            sort_keys: self.sort_keys,
            colorization,
            indentation: self.indentation,
        }
    }

    /// Choose the indentation of the output.
    ///
    /// Pure transformation: the result carries the given `indentation` and
    /// every other field of the receiver unchanged.
    pub fn with_indentation(&self, indentation: JqIndentation) -> (r: Self)
        ensures
            r.raw_output == self.raw_output,
            r.raw_input == self.raw_input,
            r.slurp == self.slurp,
            r.sort_keys == self.sort_keys,
            r.colorization == self.colorization,
            r.indentation == indentation,
    {
        JqOptions {
            raw_output: self.raw_output,
            raw_input: self.raw_input,
            slurp: self.slurp,
            sort_keys: self.sort_keys,
            colorization: self.colorization,
            indentation,
        }
    }
}

/// The indentation choices for rendered output. Exactly one variant is active
/// at a time, so mixed whitespace configurations are unrepresentable.
#[derive(Copy, Clone)]
pub enum JqIndentation {
    /// Do not indent; fully compact output.
    Compact,
    /// Use tabs for indentation.
    Tabs,
    /// Use the given number of spaces for indentation. A negative count is
    /// representable but invalid; the bridge's translation step rejects it.
    Spaces(i32),
}

/// The colorization choices for rendered output. Exactly one variant is
/// active at a time.
#[derive(Copy, Clone)]
pub enum JqColorization<'a> {
    /// Apply a custom color palette.
    Custom(&'a str),
    /// Apply the engine's default colorization.
    Colorize,
    /// Do not colorize.
    Monochrome,
}

} // verus!
