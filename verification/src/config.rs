//! The configuration of a session: where its export is written.

use crate::timestamp::Timestamp;
use vstd::prelude::*;
use vstd::string::StringExecFns;

verus! {

/// The extension of the export's name.
pub const EXTENSION: &'static str = ".csv";

/// The configuration that a session is started with.
#[derive(Debug)]
pub struct ConfigXml {
    /// The path of the export, up to the name's suffix.
    pub output_file_path_and_file_name: String,
    /// The format description, in the syntax of the `time` crate, under
    /// which the start of the session is added to the name.
    pub date_time_format_to_append_in_output_file_name: String,
}

impl ConfigXml {
    /// The path of the export of a session that started at `started`:
    /// the configured path, the start of the session under the configured
    /// format description, and the extension. `None` where the format
    /// description cannot be used on that timestamp.
    pub open spec fn file_path_for(&self, started: Timestamp) -> Option<Seq<char>> {
        match started.text_with(self.date_time_format_to_append_in_output_file_name@) {
            Some(suffix) => Some(self.file_path_with(suffix)),
            None => None,
        }
    }

    /// The path of the export under the name's suffix `suffix`.
    pub open spec fn file_path_with(&self, suffix: Seq<char>) -> Seq<char> {
        self.output_file_path_and_file_name@ + suffix + EXTENSION@
    }

    /// The path of the export under the name's suffix `suffix`.
    pub fn output_file_path_with(&self, suffix: &str) -> (path: String)
        ensures
            path@ == self.file_path_with(suffix@),
    {
        let mut path = self.output_file_path_and_file_name.clone();
        path.append(suffix);
        path.append(EXTENSION);
        path
    }

    /// The path of the export of a session that started at `started`.
    pub fn output_file_path(&self, started: &Timestamp) -> (path: Option<String>)
        ensures
            path matches Some(p) ==> self.file_path_for(*started) == Some(p@),
            path is None ==> self.file_path_for(*started) is None,
    {
        match started.format(self.date_time_format_to_append_in_output_file_name.as_str()) {
            Some(suffix) => Some(self.output_file_path_with(suffix.as_str())),
            None => None,
        }
    }
}

} // verus!
