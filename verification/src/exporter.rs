//! Export-file naming: where a snapshot or process list export lands.
//!
//! The exporter's serialization and file writing are outside concerns;
//! what the library fixes is the path: a caller-supplied file name, or a
//! timestamp-derived default, under the exporter's output directory.

use vstd::prelude::*;
use vstd::string::StringExecFns;

verus! {

/// The path an export lands at: the chosen file name, or the default
/// `tracker_data_<timestamp><extension>`, under the output directory.
pub open spec fn export_path_chars(
    output_dir: Seq<char>,
    timestamp: Seq<char>,
    filename: Option<Seq<char>>,
    extension: Seq<char>,
) -> Seq<char> {
    match filename {
        Some(f) => output_dir + "/"@ + f,
        None => output_dir + "/"@ + "tracker_data_"@ + timestamp + extension,
    }
}

/// Names the files that snapshot and process exports are written to.
#[derive(Debug, Clone, PartialEq)]
pub struct DataExporter {
    pub output_dir: String,
}

impl DataExporter {
    /// An exporter writing under the given directory.
    pub fn new(output_dir: &str) -> (r: DataExporter)
        ensures
            r.output_dir@ == output_dir@,
    {
        DataExporter { output_dir: output_dir.to_owned() }
    }

    /// The path of a structured-document export: the given name, or
    /// `tracker_data_<timestamp>.json` by default.
    pub fn json_export_path(&self, timestamp: &str, filename: Option<&str>) -> (r: String)
        ensures
            r@ == export_path_chars(
                self.output_dir@,
                timestamp@,
                match filename {
                    Some(f) => Some(f@),
                    None => None,
                },
                ".json"@,
            ),
    {
        self.export_path(timestamp, filename, ".json")
    }

    /// The path of a tabular export: the given name, or
    /// `tracker_data_<timestamp>.csv` by default.
    pub fn csv_export_path(&self, timestamp: &str, filename: Option<&str>) -> (r: String)
        ensures
            r@ == export_path_chars(
                self.output_dir@,
                timestamp@,
                match filename {
                    Some(f) => Some(f@),
                    None => None,
                },
                ".csv"@,
            ),
    {
        self.export_path(timestamp, filename, ".csv")
    }

    /// The path of an export with the given extension.
    pub fn export_path(&self, timestamp: &str, filename: Option<&str>, extension: &str) -> (r:
        String)
        ensures
            r@ == export_path_chars(
                self.output_dir@,
                timestamp@,
                match filename {
                    Some(f) => Some(f@),
                    None => None,
                },
                extension@,
            ),
    {
        let mut r = self.output_dir.clone();
        r.append("/");
        match filename {
            Some(f) => {
                r.append(f);
                proof {
                    assert(r@ =~= self.output_dir@ + "/"@ + f@);
                }
            },
            None => {
                r.append("tracker_data_");
                r.append(timestamp);
                r.append(extension);
                proof {
                    assert(r@ =~= self.output_dir@ + "/"@ + "tracker_data_"@ + timestamp@
                        + extension@);
                }
            },
        }
        r
    }
}

impl Default for DataExporter {
    /// An exporter over the default `exports` directory.
    fn default() -> (r: DataExporter)
        ensures
            r.output_dir@ == "exports"@,
    {
        DataExporter::new("exports")
    }
}

} // verus!
