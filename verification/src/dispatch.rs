//! The directory dispatcher's decisions: which files of a working directory
//! are inputs, how they are processed and where the result of a batch goes.

use crate::config::AppConfig;
use crate::text::same_text;
use vstd::prelude::*;
use vstd::string::StringExecFns;

verus! {

/// How the files of a directory are processed.
#[derive(Debug, Clone, Copy, PartialEq, Eq, Structural)]
pub enum Strategy {
    /// Each file is decoded whole, as an array of typed events, and the
    /// actors of all files go into one output.
    WholeFile,
    /// Each file goes through the streaming pipeline on its own.
    Streamed,
}

/// The settings of one pass over a directory.
#[derive(Debug, Clone)]
pub struct ProcessingConfig {
    /// The file name that is never taken as an input: the output of an
    /// earlier pass.
    pub exclude_filename: String,
    /// The file name of the output.
    pub output_filename: String,
    /// How each input is processed.
    pub strategy: Strategy,
}

/// Whether a directory entry with this file name and extension is an input
/// of a pass that excludes `exclude`: its extension is `json` and its name
/// is not the excluded one. An entry whose name cannot be had as text is
/// not the excluded one.
pub open spec fn is_input(file_name: Option<&str>, extension: Option<&str>, exclude: Seq<char>) -> bool {
    &&& !(file_name matches Some(name) && name@ == exclude)
    &&& extension matches Some(ext) && ext@ == "json"@
}

/// Whether `extension` is that of a JSON file.
pub fn has_json_extension(extension: Option<&str>) -> (b: bool)
    ensures
        b == (extension matches Some(ext) && ext@ == "json"@),
{
    match extension {
        Some(ext) => same_text(ext, "json"),
        None => false,
    }
}

impl ProcessingConfig {
    /// The pass over the directory of ordinary uploads: whole files, with
    /// `actors.json` as output and as the name left out.
    pub fn for_json_dir() -> (config: ProcessingConfig)
        ensures
            config.exclude_filename@ == "actors.json"@,
            config.output_filename@ == "actors.json"@,
            config.strategy == Strategy::WholeFile,
    {
        ProcessingConfig {
            exclude_filename: String::from_str("actors.json"),
            output_filename: String::from_str("actors.json"),
            strategy: Strategy::WholeFile,
        }
    }

    /// The pass over the directory of large uploads: streamed, with
    /// `actors-stream.json` as output and as the name left out.
    pub fn for_large_json_dir() -> (config: ProcessingConfig)
        ensures
            config.exclude_filename@ == "actors-stream.json"@,
            config.output_filename@ == "actors-stream.json"@,
            config.strategy == Strategy::Streamed,
    {
        ProcessingConfig {
            exclude_filename: String::from_str("actors-stream.json"),
            output_filename: String::from_str("actors-stream.json"),
            strategy: Strategy::Streamed,
        }
    }

    /// Whether a directory entry is an input of this pass.
    pub fn selects(&self, file_name: Option<&str>, extension: Option<&str>) -> (b: bool)
        ensures
            b == is_input(file_name, extension, self.exclude_filename@),
    {
        let excluded = match file_name {
            Some(name) => same_text(name, self.exclude_filename.as_str()),
            None => false,
        };
        !excluded && has_json_extension(extension)
    }

    /// The directory this pass goes over: `json_dir` for whole files,
    /// `large_json_dir` for streamed ones.
    pub fn scanned_dir<'a>(&self, config: &'a AppConfig) -> (dir: &'a str)
        ensures
            dir@ == match self.strategy {
                Strategy::WholeFile => config.json_dir@,
                Strategy::Streamed => config.large_json_dir@,
            },
    {
        match self.strategy {
            Strategy::WholeFile => config.json_dir.as_str(),
            Strategy::Streamed => config.large_json_dir.as_str(),
        }
    }

    /// The path of the output of this pass in `dir`, which is taken to end
    /// in a separator.
    pub fn output_path(&self, dir: &str) -> (path: String)
        ensures
            path@ == dir@ + self.output_filename@,
    {
        let mut path = String::from_str(dir);
        path.append(self.output_filename.as_str());
        path
    }
}

impl Default for ProcessingConfig {
    /// The pass over the directory of ordinary uploads.
    fn default() -> (config: ProcessingConfig)
        ensures
            config.exclude_filename@ == "actors.json"@,
            config.output_filename@ == "actors.json"@,
            config.strategy == Strategy::WholeFile,
    {
        ProcessingConfig::for_json_dir()
    }
}

} // verus!
