//! What is kept from one run of the program to the next.

use vstd::prelude::*;

verus! {

/// Shown in place of the log file's path until one is chosen.
pub const DEFAULT_LOG_FILE_TEXT: &'static str = "Path to log file to read";

/// The file that the captured image is saved to unless another is chosen.
pub const DEFAULT_OUTPUT_FILE: &'static str = "seedshot.png";

/// The label of a fresh installation.
pub const DEFAULT_LABEL: &'static str = "Hello World!";

/// The two paths and the label that outlive a run. Nothing of a running
/// session is kept: tokens, handles and offsets are made anew at every start.
#[derive(Clone, Debug)]
pub struct Settings {
    /// The log file to follow.
    pub read_file_text: String,
    /// Where the captured image goes.
    pub output_png_file: String,
    /// A label for the user.
    pub label: String,
}

impl Default for Settings {
    fn default() -> (settings: Settings)
        ensures
            settings.read_file_text@ == DEFAULT_LOG_FILE_TEXT@,
            settings.output_png_file@ == DEFAULT_OUTPUT_FILE@,
            settings.label@ == DEFAULT_LABEL@,
    {
        Settings {
            read_file_text: DEFAULT_LOG_FILE_TEXT.to_owned(),
            output_png_file: DEFAULT_OUTPUT_FILE.to_owned(),
            label: DEFAULT_LABEL.to_owned(),
        }
    }
}

} // verus!
