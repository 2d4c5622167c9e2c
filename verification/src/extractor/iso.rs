//! ISO 9660 disk images.

use crate::command::{refuse, refuse_plain, AdapterError, CommandSpec, CommandView};
use crate::extractor::tools::{bsdtar_command, bsdtar_view, seven_zip_command, seven_zip_view};
use crate::extractor::Extractor;
use crate::text::{str_equal, views};
use crate::trust::Platform;
use vstd::prelude::*;

verus! {

/// The adapter for ISO images.
pub struct IsoExtractor;

impl Extractor for IsoExtractor {
    open spec fn extensions(&self) -> Seq<Seq<char>> {
        seq!["iso"@]
    }

    open spec fn candidates(&self, platform: Platform) -> Seq<Seq<char>> {
        seq!["7z"@, "bsdtar"@]
    }

    open spec fn command(
        &self,
        tool: Option<Seq<char>>,
        binary: Seq<char>,
        file: Seq<char>,
        file_name: Option<Seq<char>>,
        output_dir: Seq<char>,
        verbose: bool,
    ) -> Result<CommandView, Seq<char>> {
        match tool {
            None => Err("Invalid binary path"@),
            Some(t) => {
                if t == "7z"@ {
                    Ok(seven_zip_view(binary, file, output_dir, verbose))
                } else if t == "bsdtar"@ {
                    Ok(bsdtar_view(binary, file, output_dir, verbose))
                } else {
                    Err("Unsupported ISO extraction tool: "@ + t)
                }
            },
        }
    }

    fn file_extensions(&self) -> (r: Vec<&'static str>) {
        let r = vec!["iso"];
        assert(views(r@) =~= self.extensions());
        r
    }

    fn binary_names(&self, platform: Platform) -> (r: Vec<&'static str>) {
        let r = vec!["7z", "bsdtar"];
        assert(views(r@) =~= self.candidates(platform));
        r
    }

    fn command_for(
        &self,
        tool: &Option<String>,
        binary: &str,
        file: &str,
        file_name: &Option<String>,
        output_dir: &str,
        verbose: bool,
    ) -> (r: Result<CommandSpec, AdapterError>) {
        match tool {
            None => refuse_plain("Invalid binary path"),
            Some(name) => {
                let t = name.as_str();
                if str_equal(t, "7z") {
                    Ok(seven_zip_command(binary, file, output_dir, verbose))
                } else if str_equal(t, "bsdtar") {
                    Ok(bsdtar_command(binary, file, output_dir, verbose))
                } else {
                    refuse("Unsupported ISO extraction tool: ", t)
                }
            },
        }
    }
}

} // verus!
