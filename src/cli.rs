use vstd::prelude::*;

use crate::error::PigmentsError;

verus! {

/// The program's settings: the image to read, how many colors to extract, the output
/// format (`json` or `text`) and, optionally, a file to write the result to.
#[derive(Debug)]
pub struct Args {
    pub input: String,
    pub num_colors: usize,
    pub format: String,
    pub output: Option<String>,
}

/// How the extracted colors are written out.
#[derive(Clone, Copy, Debug, PartialEq, Eq, Structural)]
pub enum OutputFormat {
    Json,
    Text,
}

/// The number of colors extracted when none is asked for.
pub const DEFAULT_NUM_COLORS: usize = 5;

impl Args {
    /// Settings for one input with every other setting at its default: five colors,
    /// written as text to standard output.
    pub fn new(input: String) -> (a: Args)
        ensures
            a.input@ == input@,
            a.num_colors == DEFAULT_NUM_COLORS,
            a.format@ == seq!['t', 'e', 'x', 't'],
            a.output is None,
    {
        let format = String::from_str("text");
        proof {
            reveal_strlit("text");
            assert(format@ =~= seq!['t', 'e', 'x', 't']);
        }
        Args { input, num_colors: DEFAULT_NUM_COLORS, format, output: None }
    }

    /// The requested output format; any name but `json` and `text` is refused.
    pub fn output_format(&self) -> (r: Result<OutputFormat, PigmentsError>)
        ensures
            r matches Ok(f) ==> (f == OutputFormat::Json <==> self.format@ == seq![
                'j',
                's',
                'o',
                'n',
            ]),
            r matches Ok(f) ==> (f == OutputFormat::Text <==> self.format@ == seq![
                't',
                'e',
                'x',
                't',
            ]),
            r is Err <==> (self.format@ != seq!['j', 's', 'o', 'n'] && self.format@ != seq![
                't',
                'e',
                'x',
                't',
            ]),
            r matches Err(e) ==> e is UnsupportedFormat,
    {
        let json = String::from_str("json");
        let text = String::from_str("text");
        proof {
            reveal_strlit("json");
            reveal_strlit("text");
            assert(json@ =~= seq!['j', 's', 'o', 'n']);
            assert(text@ =~= seq!['t', 'e', 'x', 't']);
        }
        if self.format == json {
            Ok(OutputFormat::Json)
        } else if self.format == text {
            Ok(OutputFormat::Text)
        } else {
            Err(PigmentsError::UnsupportedFormat(String::from_str("Unsupported output format")))
        }
    }
}

} // verus!
