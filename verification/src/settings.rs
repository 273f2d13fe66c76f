//! What one run is asked to do, and how it can fail.

use vstd::prelude::*;

verus! {

/// The parameters of one conversion.
#[derive(Clone, Debug)]
pub struct Config {
    /// Path of the image to read.
    pub input: String,
    /// Path of the text file to write.
    pub output: String,
    /// Number of characters in each line of the art.
    pub width: u32,
}

/// The width of the art unless another is asked for.
pub const DEFAULT_WIDTH: u32 = 170;

impl Config {
    /// The parameters for converting `input` with the default output path,
    /// `output.txt`, and the default width.
    pub fn new(input: String) -> (config: Config)
        ensures
            config.input@ == input@,
            config.output@ == "output.txt"@,
            config.width == DEFAULT_WIDTH,
    {
        Config { input, output: "output.txt".to_owned(), width: DEFAULT_WIDTH }
    }

    /// The same parameters with another output path.
    pub fn with_output(self, output: String) -> (config: Config)
        ensures
            config.input@ == self.input@,
            config.output@ == output@,
            config.width == self.width,
    {
        Config { input: self.input, output, width: self.width }
    }

    /// The same parameters with another width, or `None` for a width of no
    /// columns.
    pub fn with_width(self, width: u32) -> (config: Option<Config>)
        ensures
            config is Some <==> width > 0,
            config matches Some(c) ==> {
                &&& c.input@ == self.input@
                &&& c.output@ == self.output@
                &&& c.width == width
            },
    {
        if width > 0 {
            Some(Config { input: self.input, output: self.output, width })
        } else {
            None
        }
    }
}

impl Default for Config {
    /// The parameters of a run that is told nothing: `art.jpg` is converted
    /// to `output.txt` at the default width.
    fn default() -> (config: Config)
        ensures
            config.input@ == "art.jpg"@,
            config.output@ == "output.txt"@,
            config.width == DEFAULT_WIDTH,
    {
        Config::new("art.jpg".to_owned())
    }
}

/// The stage at which a run failed. Every failure ends the run.
#[derive(Clone, Copy, Debug, PartialEq, Eq, Structural)]
pub enum Failure {
    /// The image could not be read or decoded; nothing was rendered or
    /// written.
    Decode,
    /// The art could not be written to the output file.
    Write,
    /// The image cannot be resampled to the width asked for; nothing was
    /// rendered or written.
    Resample,
}

impl Failure {
    /// The exit status that reports this failure.
    pub open spec fn spec_exit_code(self) -> u8 {
        match self {
            Failure::Decode => 1,
            Failure::Write => 2,
            Failure::Resample => 3,
        }
    }

    /// The exit status that reports this failure: never zero, the status of
    /// a run that succeeded, and different for different failures.
    #[verifier::when_used_as_spec(spec_exit_code)]
    pub fn exit_code(self) -> (code: u8)
        ensures
            code == self.spec_exit_code(),
            code != 0,
    {
        match self {
            Failure::Decode => 1,
            Failure::Write => 2,
            Failure::Resample => 3,
        }
    }
}

/// Different failures are reported by different exit statuses.
pub proof fn exit_codes_differ(a: Failure, b: Failure)
    requires
        a != b,
    ensures
        a.exit_code() != b.exit_code(),
{
}

} // verus!
