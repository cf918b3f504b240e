//! Helpers of the command-line tool: the tracing mode it is asked for and
//! where tracing output goes.
use vstd::prelude::*;
use crate::json::str_eq;

verus! {

/// How the tool traces its own execution.
#[derive(Debug, Clone, Copy, PartialEq, Eq, Structural)]
pub enum TracingMode {
    Disabled,
    /// Console output with timing statistics.
    Console,
    /// Chrome tracing format.
    Chrome,
    /// Flamegraph format.
    Flame,
    /// Console, Chrome tracing and flamegraph together.
    All,
}

/// The mode a lower-case name selects; an unknown name disables tracing.
pub open spec fn mode_named(s: Seq<char>) -> TracingMode {
    if s == "console"@ {
        TracingMode::Console
    } else if s == "chrome"@ {
        TracingMode::Chrome
    } else if s == "flame"@ {
        TracingMode::Flame
    } else if s == "all"@ {
        TracingMode::All
    } else {
        TracingMode::Disabled
    }
}

/// What std's `str::to_lowercase` makes of a string.
pub uninterp spec fn lowercase_of(s: Seq<char>) -> Seq<char>;

/// Relies on str::to_lowercase: the result depends on the characters alone.
#[verifier::external_body]
fn lowercase(s: &str) -> (r: String)
    ensures
        r@ == lowercase_of(s@),
{
    s.to_lowercase()
}

impl TracingMode {
    /// The mode of the `--tracing` flag; disabled where the flag is absent.
    pub fn from_config(config_value: Option<&str>) -> (r: TracingMode)
        ensures
            r == match config_value {
                Some(s) => mode_named(lowercase_of(s@)),
                None => TracingMode::Disabled,
            },
    {
        match config_value {
            Some(s) => TracingMode::from_str(s),
            None => TracingMode::Disabled,
        }
    }

    /// The mode a name selects, whatever its case.
    pub fn from_str(s: &str) -> (r: TracingMode)
        ensures
            r == mode_named(lowercase_of(s@)),
    {
        let lower = lowercase(s);
        TracingMode::from_lowercase_name(lower.as_str())
    }

    /// The mode a lower-case name selects.
    pub fn from_lowercase_name(s: &str) -> (r: TracingMode)
        ensures
            r == mode_named(s@),
    {
        if str_eq(s, "console") {
            TracingMode::Console
        } else if str_eq(s, "chrome") {
            TracingMode::Chrome
        } else if str_eq(s, "flame") {
            TracingMode::Flame
        } else if str_eq(s, "all") {
            TracingMode::All
        } else {
            TracingMode::Disabled
        }
    }

    pub fn is_enabled(&self) -> (r: bool)
        ensures
            r == (*self != TracingMode::Disabled),
    {
        !matches!(self, TracingMode::Disabled)
    }
}

/// `name` inside directory `base`, as a relative path joins onto a directory.
pub open spec fn path_join(base: Seq<char>, name: Seq<char>) -> Seq<char> {
    if base.len() == 0 || base.last() == '/' {
        base + name
    } else {
        base + seq!['/'] + name
    }
}

fn join(base: &str, name: &str) -> (r: String)
    ensures
        r@ == path_join(base@, name@),
{
    let n = base.unicode_len();
    let mut r = base.to_owned();
    if !(n == 0 || base.get_char(n - 1) == '/') {
        proof {
            reveal_strlit("/");
        }
        r.append("/");
    }
    r.append(name);
    r
}

/// Where the tracing output of one run is written.
#[derive(Debug, Clone)]
pub struct TracingOutputPaths {
    pub chrome_file: Option<String>,
    pub flame_file: Option<String>,
}

impl TracingOutputPaths {
    /// The output files in `base_dir` for a run started at `timestamp`:
    /// "trace_<timestamp>.json" and "flamegraph_<timestamp>.svg".
    pub fn new(base_dir: &str, timestamp: &str) -> (r: TracingOutputPaths)
        ensures
            r.chrome_file is Some,
            r.chrome_file->0@ == path_join(base_dir@, "trace_"@ + timestamp@ + ".json"@),
            r.flame_file is Some,
            r.flame_file->0@ == path_join(base_dir@, "flamegraph_"@ + timestamp@ + ".svg"@),
    {
        let chrome = "trace_".to_owned().concat(timestamp).concat(".json");
        let flame = "flamegraph_".to_owned().concat(timestamp).concat(".svg");
        TracingOutputPaths {
            chrome_file: Some(join(base_dir, chrome.as_str())),
            flame_file: Some(join(base_dir, flame.as_str())),
        }
    }

    /// The lines that describe the output files and how to view them.
    pub fn print_summary(&self) -> (r: Vec<String>)
        ensures
            r@.len() == 2 + (if self.chrome_file is Some { 2int } else { 0 }) + (
            if self.flame_file is Some {
                2int
            } else {
                0
            }),
            r@[0]@ == ""@,
            r@[1]@ == "📊 Tracing output files:"@,
            self.chrome_file is Some ==> r@[2]@ == "  🔍 Chrome Tracing: "@
                + self.chrome_file->0@,
            self.chrome_file is Some ==> r@[3]@
                == "     How to view: Open Chrome browser, visit chrome://tracing, then drag and drop the file"@,
            self.flame_file is Some ==> r@[r@.len() - 2]@ == "  🔥 Flamegraph: "@
                + self.flame_file->0@,
            self.flame_file is Some ==> r@[r@.len() - 1]@
                == "     How to view: Open the SVG file directly in a browser"@,
    {
        let mut r: Vec<String> = Vec::new();
        r.push("".to_owned());
        r.push("📊 Tracing output files:".to_owned());
        match &self.chrome_file {
            Some(chrome) => {
                r.push("  🔍 Chrome Tracing: ".to_owned().concat(chrome.as_str()));
                r.push(
                    "     How to view: Open Chrome browser, visit chrome://tracing, then drag and drop the file".to_owned(),
                );
            },
            None => {},
        }
        match &self.flame_file {
            Some(flame) => {
                r.push("  🔥 Flamegraph: ".to_owned().concat(flame.as_str()));
                r.push("     How to view: Open the SVG file directly in a browser".to_owned());
            },
            None => {},
        }
        r
    }
}

} // verus!
