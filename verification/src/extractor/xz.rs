//! Files compressed with xz.

use crate::command::{refuse, refuse_plain, AdapterError, CommandSpec, CommandView};
use crate::extractor::tools::{stream_command, stream_view};
use crate::extractor::Extractor;
use crate::text::{str_equal, views};
use crate::trust::Platform;
use vstd::prelude::*;

verus! {

/// The adapter for xz files.
pub struct XzExtractor;

impl Extractor for XzExtractor {
    open spec fn extensions(&self) -> Seq<Seq<char>> {
        seq!["xz"@]
    }

    open spec fn candidates(&self, platform: Platform) -> Seq<Seq<char>> {
        seq!["xz"@, "unxz"@]
    }

    open spec fn command(
        &self,
        tool: Option<Seq<char>>,
        binary: Seq<char>,
        file: Seq<char>,
        file_name: Option<Seq<char>>,
        output_dir: Seq<char>,
        verbose: bool,
    ) -> Result<CommandView, Seq<char>> {
        match tool {
            None => Err("Invalid binary path"@),
            Some(t) => {
                if t == "xz"@ {
                    Ok(stream_view(true, binary, file, output_dir, verbose))
                } else if t == "unxz"@ {
                    Ok(stream_view(false, binary, file, output_dir, verbose))
                } else {
                    Err("Unsupported xz extraction tool: "@ + t)
                }
            },
        }
    }

    fn file_extensions(&self) -> (r: Vec<&'static str>) {
        let r = vec!["xz"];
        assert(views(r@) =~= self.extensions());
        r
    }

    fn binary_names(&self, platform: Platform) -> (r: Vec<&'static str>) {
        let r = vec!["xz", "unxz"];
        assert(views(r@) =~= self.candidates(platform));
        r
    }

    fn command_for(
        &self,
        tool: &Option<String>,
        binary: &str,
        file: &str,
        file_name: &Option<String>,
        output_dir: &str,
        verbose: bool,
    ) -> (r: Result<CommandSpec, AdapterError>) {
        match tool {
            None => refuse_plain("Invalid binary path"),
            Some(name) => {
                let t = name.as_str();
                if str_equal(t, "xz") {
                    Ok(stream_command(true, binary, file, output_dir, verbose))
                } else if str_equal(t, "unxz") {
                    Ok(stream_command(false, binary, file, output_dir, verbose))
                } else {
                    refuse("Unsupported xz extraction tool: ", t)
                }
            },
        }
    }
}

} // verus!
