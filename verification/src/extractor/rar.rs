//! RAR archives.

use crate::command::{refuse, refuse_plain, AdapterError, CommandSpec, CommandView};
use crate::extractor::tools::{seven_zip_command, seven_zip_view, unar_command, unar_view};
use crate::extractor::Extractor;
use crate::text::{str_equal, views};
use crate::trust::Platform;
use vstd::prelude::*;

verus! {

/// The adapter for RAR archives.
pub struct RarExtractor;

impl Extractor for RarExtractor {
    open spec fn extensions(&self) -> Seq<Seq<char>> {
        seq!["rar"@]
    }

    open spec fn candidates(&self, platform: Platform) -> Seq<Seq<char>> {
        if platform == Platform::MacOs {
            seq!["unar"@, "unrar"@]
        } else {
            seq!["unrar"@, "7z"@]
        }
    }

    open spec fn command(
        &self,
        tool: Option<Seq<char>>,
        binary: Seq<char>,
        file: Seq<char>,
        file_name: Option<Seq<char>>,
        output_dir: Seq<char>,
        verbose: bool,
    ) -> Result<CommandView, Seq<char>> {
        match tool {
            None => Err("Invalid binary path"@),
            Some(t) => {
                if t == "unar"@ {
                    Ok(unar_view(binary, file, output_dir, verbose))
                } else if t == "unrar"@ {
                    Ok(CommandView::new(binary)
                        .arg("x"@)
                        .arg("-y"@)
                        .arg(file)
                        .arg(output_dir)
                        .arg_if(!verbose, "-idq"@))
                } else if t == "7z"@ {
                    Ok(seven_zip_view(binary, file, output_dir, verbose))
                } else {
                    Err("Unsupported RAR tool: "@ + t)
                }
            },
        }
    }

    fn file_extensions(&self) -> (r: Vec<&'static str>) {
        let r = vec!["rar"];
        assert(views(r@) =~= self.extensions());
        r
    }

    fn binary_names(&self, platform: Platform) -> (r: Vec<&'static str>) {
        let r = match platform {
            Platform::MacOs => vec!["unar", "unrar"],
            _ => vec!["unrar", "7z"],
        };
        assert(views(r@) =~= self.candidates(platform));
        r
    }

    fn command_for(
        &self,
        tool: &Option<String>,
        binary: &str,
        file: &str,
        file_name: &Option<String>,
        output_dir: &str,
        verbose: bool,
    ) -> (r: Result<CommandSpec, AdapterError>) {
        match tool {
            None => refuse_plain("Invalid binary path"),
            Some(name) => {
                let t = name.as_str();
                if str_equal(t, "unar") {
                    Ok(unar_command(binary, file, output_dir, verbose))
                } else if str_equal(t, "unrar") {
                    let mut cmd = CommandSpec::new(binary);
                    cmd.arg("x");
                    cmd.arg("-y");
                    cmd.arg(file);
                    cmd.arg(output_dir);
                    cmd.arg_if(!verbose, "-idq");
                    Ok(cmd)
                } else if str_equal(t, "7z") {
                    Ok(seven_zip_command(binary, file, output_dir, verbose))
                } else {
                    refuse("Unsupported RAR tool: ", t)
                }
            },
        }
    }
}

} // verus!
