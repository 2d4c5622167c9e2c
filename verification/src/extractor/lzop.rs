//! Files compressed with lzop.

use crate::command::{refuse, refuse_plain, AdapterError, CommandSpec, CommandView};
use crate::extractor::Extractor;
use crate::text::{str_equal, views};
use crate::trust::Platform;
use vstd::prelude::*;

verus! {

/// The adapter for lzop files.
pub struct LzopExtractor;

impl Extractor for LzopExtractor {
    open spec fn extensions(&self) -> Seq<Seq<char>> {
        seq!["lzo"@]
    }

    open spec fn candidates(&self, platform: Platform) -> Seq<Seq<char>> {
        seq!["lzop"@]
    }

    open spec fn command(
        &self,
        tool: Option<Seq<char>>,
        binary: Seq<char>,
        file: Seq<char>,
        file_name: Option<Seq<char>>,
        output_dir: Seq<char>,
        verbose: bool,
    ) -> Result<CommandView, Seq<char>> {
        match tool {
            None => Err("Invalid binary path"@),
            Some(t) => {
                if t == "lzop"@ {
                    Ok(CommandView::new(binary)
                        .arg("-d"@)
                        .arg("-p"@)
                        .arg(output_dir)
                        .arg("-k"@)
                        .arg_if(verbose, "-v"@)
                        .arg(file))
                } else {
                    Err("Unsupported lzop extraction tool: "@ + t)
                }
            },
        }
    }

    fn file_extensions(&self) -> (r: Vec<&'static str>) {
        let r = vec!["lzo"];
        assert(views(r@) =~= self.extensions());
        r
    }

    fn binary_names(&self, platform: Platform) -> (r: Vec<&'static str>) {
        let r = vec!["lzop"];
        assert(views(r@) =~= self.candidates(platform));
        r
    }

    fn command_for(
        &self,
        tool: &Option<String>,
        binary: &str,
        file: &str,
        file_name: &Option<String>,
        output_dir: &str,
        verbose: bool,
    ) -> (r: Result<CommandSpec, AdapterError>) {
        match tool {
            None => refuse_plain("Invalid binary path"),
            Some(name) => {
                let t = name.as_str();
                if str_equal(t, "lzop") {
                    let mut cmd = CommandSpec::new(binary);
                    cmd.arg("-d");
                    cmd.arg("-p");
                    cmd.arg(output_dir);
                    cmd.arg("-k");
                    cmd.arg_if(verbose, "-v");
                    cmd.arg(file);
                    Ok(cmd)
                } else {
                    refuse("Unsupported lzop extraction tool: ", t)
                }
            },
        }
    }
}

} // verus!
