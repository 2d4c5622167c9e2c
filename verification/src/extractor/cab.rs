//! Microsoft cabinet archives.

use crate::command::{refuse, refuse_plain, AdapterError, CommandSpec, CommandView};
use crate::extractor::tools::{seven_zip_command, seven_zip_view};
use crate::extractor::Extractor;
use crate::text::{str_equal, views};
use crate::trust::Platform;
use vstd::prelude::*;

verus! {

/// The adapter for cabinet archives.
pub struct CabExtractor;

impl Extractor for CabExtractor {
    open spec fn extensions(&self) -> Seq<Seq<char>> {
        seq!["cab"@]
    }

    open spec fn candidates(&self, platform: Platform) -> Seq<Seq<char>> {
        seq!["cabextract"@, "7z"@]
    }

    open spec fn command(
        &self,
        tool: Option<Seq<char>>,
        binary: Seq<char>,
        file: Seq<char>,
        file_name: Option<Seq<char>>,
        output_dir: Seq<char>,
        verbose: bool,
    ) -> Result<CommandView, Seq<char>> {
        match tool {
            None => Err("Invalid binary path"@),
            Some(t) => {
                if t == "cabextract"@ {
                    Ok(CommandView::new(binary)
                        .arg("-d"@)
                        .arg(output_dir)
                        .arg(file)
                        .arg_if(!verbose, "-q"@))
                } else if t == "7z"@ {
                    Ok(seven_zip_view(binary, file, output_dir, verbose))
                } else {
                    Err("Unsupported CAB extraction tool: "@ + t)
                }
            },
        }
    }

    fn file_extensions(&self) -> (r: Vec<&'static str>) {
        let r = vec!["cab"];
        assert(views(r@) =~= self.extensions());
        r
    }

    fn binary_names(&self, platform: Platform) -> (r: Vec<&'static str>) {
        let r = vec!["cabextract", "7z"];
        assert(views(r@) =~= self.candidates(platform));
        r
    }

    fn command_for(
        &self,
        tool: &Option<String>,
        binary: &str,
        file: &str,
        file_name: &Option<String>,
        output_dir: &str,
        verbose: bool,
    ) -> (r: Result<CommandSpec, AdapterError>) {
        match tool {
            None => refuse_plain("Invalid binary path"),
            Some(name) => {
                let t = name.as_str();
                if str_equal(t, "cabextract") {
                    let mut cmd = CommandSpec::new(binary);
                    cmd.arg("-d");
                    cmd.arg(output_dir);
                    cmd.arg(file);
                    cmd.arg_if(!verbose, "-q");
                    Ok(cmd)
                } else if str_equal(t, "7z") {
                    Ok(seven_zip_command(binary, file, output_dir, verbose))
                } else {
                    refuse("Unsupported CAB extraction tool: ", t)
                }
            },
        }
    }
}

} // verus!
