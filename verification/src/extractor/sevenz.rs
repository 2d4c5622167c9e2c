//! 7z archives.

use crate::command::{refuse, refuse_plain, AdapterError, CommandSpec, CommandView};
use crate::extractor::tools::{bsdtar_command, bsdtar_view, unar_command, unar_view};
use crate::extractor::Extractor;
use crate::text::{str_equal, views};
use crate::trust::Platform;
use vstd::prelude::*;
use vstd::string::*;

verus! {

/// The adapter for 7z archives.
pub struct SevenzExtractor;

impl Extractor for SevenzExtractor {
    open spec fn extensions(&self) -> Seq<Seq<char>> {
        seq!["7z"@]
    }

    open spec fn candidates(&self, platform: Platform) -> Seq<Seq<char>> {
        if platform == Platform::MacOs {
            seq!["unar"@, "7z"@, "7za"@, "7zr"@, "bsdtar"@]
        } else {
            seq!["7z"@, "7za"@, "7zr"@, "bsdtar"@]
        }
    }

    open spec fn command(
        &self,
        tool: Option<Seq<char>>,
        binary: Seq<char>,
        file: Seq<char>,
        file_name: Option<Seq<char>>,
        output_dir: Seq<char>,
        verbose: bool,
    ) -> Result<CommandView, Seq<char>> {
        match tool {
            None => Err("Invalid binary path"@),
            Some(t) => {
                if t == "7z"@ || t == "7za"@ || t == "7zr"@ {
                    Ok(CommandView::new(binary)
                        .arg("x"@)
                        .arg("-o"@ + output_dir)
                        .arg(file)
                        .arg("-y"@)
                        .arg_if(!verbose, "-bso0"@)
                        .arg_if(!verbose, "-bd"@))
                } else if t == "bsdtar"@ {
                    Ok(bsdtar_view(binary, file, output_dir, verbose))
                } else if t == "unar"@ {
                    Ok(unar_view(binary, file, output_dir, verbose))
                } else {
                    Err("Unsupported 7z extraction tool: "@ + t)
                }
            },
        }
    }

    fn file_extensions(&self) -> (r: Vec<&'static str>) {
        let r = vec!["7z"];
        assert(views(r@) =~= self.extensions());
        r
    }

    fn binary_names(&self, platform: Platform) -> (r: Vec<&'static str>) {
        let r = match platform {
            Platform::MacOs => vec!["unar", "7z", "7za", "7zr", "bsdtar"],
            _ => vec!["7z", "7za", "7zr", "bsdtar"],
        };
        assert(views(r@) =~= self.candidates(platform));
        r
    }

    fn command_for(
        &self,
        tool: &Option<String>,
        binary: &str,
        file: &str,
        file_name: &Option<String>,
        output_dir: &str,
        verbose: bool,
    ) -> (r: Result<CommandSpec, AdapterError>) {
        match tool {
            None => refuse_plain("Invalid binary path"),
            Some(name) => {
                let t = name.as_str();
                if str_equal(t, "7z") || str_equal(t, "7za") || str_equal(t, "7zr") {
                    let mut cmd = CommandSpec::new(binary);
                    cmd.arg("x");
                    let target = String::from_str("-o").concat(output_dir);
                    cmd.arg(target.as_str());
                    cmd.arg(file);
                    cmd.arg("-y");
                    cmd.arg_if(!verbose, "-bso0");
                    cmd.arg_if(!verbose, "-bd");
                    Ok(cmd)
                } else if str_equal(t, "bsdtar") {
                    Ok(bsdtar_command(binary, file, output_dir, verbose))
                } else if str_equal(t, "unar") {
                    Ok(unar_command(binary, file, output_dir, verbose))
                } else {
                    refuse("Unsupported 7z extraction tool: ", t)
                }
            },
        }
    }
}

} // verus!
