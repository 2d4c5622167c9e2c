//! Debian and RPM packages.

use crate::command::{refuse, refuse_plain, AdapterError, CommandSpec, CommandView};
use crate::extractor::tools::{bsdtar_command, bsdtar_view};
use crate::extractor::Extractor;
use crate::text::{str_equal, views};
use crate::trust::Platform;
use vstd::prelude::*;

verus! {

/// The adapter for Debian and RPM packages.
pub struct DebRpmExtractor;

impl Extractor for DebRpmExtractor {
    open spec fn extensions(&self) -> Seq<Seq<char>> {
        seq!["deb"@, "rpm"@]
    }

    open spec fn candidates(&self, platform: Platform) -> Seq<Seq<char>> {
        seq!["bsdtar"@, "ar"@, "dpkg"@, "rpm2cpio"@]
    }

    open spec fn command(
        &self,
        tool: Option<Seq<char>>,
        binary: Seq<char>,
        file: Seq<char>,
        file_name: Option<Seq<char>>,
        output_dir: Seq<char>,
        verbose: bool,
    ) -> Result<CommandView, Seq<char>> {
        match tool {
            None => Err("Invalid binary path"@),
            Some(t) => {
                if t == "bsdtar"@ {
                    Ok(bsdtar_view(binary, file, output_dir, verbose))
                } else if t == "dpkg"@ {
                    Ok(CommandView::new(binary)
                        .arg("-x"@)
                        .arg(file)
                        .arg(output_dir))
                } else if t == "rpm2cpio"@ {
                    Ok(CommandView::new(binary)
                        .arg(file)
                        .arg("|"@)
                        .arg("cpio"@)
                        .arg("-idm"@)
                        .arg("-D"@)
                        .arg(output_dir))
                } else if t == "ar"@ {
                    Ok(CommandView::new(binary)
                        .arg("x"@)
                        .arg(file)
                        .arg("--output"@)
                        .arg(output_dir))
                } else {
                    Err("Unsupported package tool: "@ + t)
                }
            },
        }
    }

    fn file_extensions(&self) -> (r: Vec<&'static str>) {
        let r = vec!["deb", "rpm"];
        assert(views(r@) =~= self.extensions());
        r
    }

    fn binary_names(&self, platform: Platform) -> (r: Vec<&'static str>) {
        let r = vec!["bsdtar", "ar", "dpkg", "rpm2cpio"];
        assert(views(r@) =~= self.candidates(platform));
        r
    }

    fn command_for(
        &self,
        tool: &Option<String>,
        binary: &str,
        file: &str,
        file_name: &Option<String>,
        output_dir: &str,
        verbose: bool,
    ) -> (r: Result<CommandSpec, AdapterError>) {
        match tool {
            None => refuse_plain("Invalid binary path"),
            Some(name) => {
                let t = name.as_str();
                if str_equal(t, "bsdtar") {
                    Ok(bsdtar_command(binary, file, output_dir, verbose))
                } else if str_equal(t, "dpkg") {
                    let mut cmd = CommandSpec::new(binary);
                    cmd.arg("-x");
                    cmd.arg(file);
                    cmd.arg(output_dir);
                    Ok(cmd)
                } else if str_equal(t, "rpm2cpio") {
                    let mut cmd = CommandSpec::new(binary);
                    cmd.arg(file);
                    cmd.arg("|");
                    cmd.arg("cpio");
                    cmd.arg("-idm");
                    cmd.arg("-D");
                    cmd.arg(output_dir);
                    Ok(cmd)
                } else if str_equal(t, "ar") {
                    let mut cmd = CommandSpec::new(binary);
                    cmd.arg("x");
                    cmd.arg(file);
                    cmd.arg("--output");
                    cmd.arg(output_dir);
                    Ok(cmd)
                } else {
                    refuse("Unsupported package tool: ", t)
                }
            },
        }
    }
}

} // verus!
