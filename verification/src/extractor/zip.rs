//! Zip archives and the Java archives built on them.

use crate::command::{refuse, refuse_plain, AdapterError, CommandSpec, CommandView};
use crate::extractor::tools::{bsdtar_command, bsdtar_view, unar_command, unar_view};
use crate::extractor::Extractor;
use crate::text::{str_equal, views};
use crate::trust::Platform;
use vstd::prelude::*;

verus! {

/// The adapter for zip, jar and war archives.
pub struct ZipExtractor;

impl Extractor for ZipExtractor {
    open spec fn extensions(&self) -> Seq<Seq<char>> {
        seq!["zip"@, "jar"@, "war"@]
    }

    open spec fn candidates(&self, platform: Platform) -> Seq<Seq<char>> {
        if platform == Platform::MacOs {
            seq!["unar"@, "unzip"@, "7z"@, "bsdtar"@, "jar"@]
        } else {
            seq!["unzip"@, "7z"@, "bsdtar"@, "jar"@]
        }
    }

    open spec fn command(
        &self,
        tool: Option<Seq<char>>,
        binary: Seq<char>,
        file: Seq<char>,
        file_name: Option<Seq<char>>,
        output_dir: Seq<char>,
        verbose: bool,
    ) -> Result<CommandView, Seq<char>> {
        match tool {
            None => Err("Invalid binary path"@),
            Some(t) => {
                if t == "unar"@ {
                    Ok(unar_view(binary, file, output_dir, verbose))
                } else if t == "unzip"@ {
                    Ok(CommandView::new(binary)
                        .arg_if(!verbose, "-q"@)
                        .arg(file)
                        .arg("-d"@)
                        .arg(output_dir))
                } else if t == "7z"@ {
                    Ok(CommandView::new(binary)
                        .arg("x"@)
                        .arg("-y"@)
                        .arg("-o"@)
                        .arg(output_dir)
                        .arg(file)
                        .arg_if(!verbose, "-bd"@))
                } else if t == "bsdtar"@ {
                    Ok(bsdtar_view(binary, file, output_dir, verbose))
                } else if t == "jar"@ {
                    Ok(CommandView::new(binary)
                        .arg("xf"@)
                        .arg(file)
                        .dir(output_dir)
                        .arg_if(verbose, "-v"@))
                } else {
                    Err("Unsupported zip extraction tool: "@ + t)
                }
            },
        }
    }

    fn file_extensions(&self) -> (r: Vec<&'static str>) {
        let r = vec!["zip", "jar", "war"];
        assert(views(r@) =~= self.extensions());
        r
    }

    fn binary_names(&self, platform: Platform) -> (r: Vec<&'static str>) {
        let r = match platform {
            Platform::MacOs => vec!["unar", "unzip", "7z", "bsdtar", "jar"],
            _ => vec!["unzip", "7z", "bsdtar", "jar"],
        };
        assert(views(r@) =~= self.candidates(platform));
        r
    }

    fn command_for(
        &self,
        tool: &Option<String>,
        binary: &str,
        file: &str,
        file_name: &Option<String>,
        output_dir: &str,
        verbose: bool,
    ) -> (r: Result<CommandSpec, AdapterError>) {
        match tool {
            None => refuse_plain("Invalid binary path"),
            Some(name) => {
                let t = name.as_str();
                if str_equal(t, "unar") {
                    Ok(unar_command(binary, file, output_dir, verbose))
                } else if str_equal(t, "unzip") {
                    let mut cmd = CommandSpec::new(binary);
                    cmd.arg_if(!verbose, "-q");
                    cmd.arg(file);
                    cmd.arg("-d");
                    cmd.arg(output_dir);
                    Ok(cmd)
                } else if str_equal(t, "7z") {
                    let mut cmd = CommandSpec::new(binary);
                    cmd.arg("x");
                    cmd.arg("-y");
                    cmd.arg("-o");
                    cmd.arg(output_dir);
                    cmd.arg(file);
                    cmd.arg_if(!verbose, "-bd");
                    Ok(cmd)
                } else if str_equal(t, "bsdtar") {
                    Ok(bsdtar_command(binary, file, output_dir, verbose))
                } else if str_equal(t, "jar") {
                    let mut cmd = CommandSpec::new(binary);
                    cmd.arg("xf");
                    cmd.arg(file);
                    cmd.dir(output_dir);
                    cmd.arg_if(verbose, "-v");
                    Ok(cmd)
                } else {
                    refuse("Unsupported zip extraction tool: ", t)
                }
            },
        }
    }
}

} // verus!
