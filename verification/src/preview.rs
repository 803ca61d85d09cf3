//! The source preview: which file of a selection is shown, and how long a
//! text is shown before it is cut.

use vstd::prelude::*;
use vstd::string::{StringExecFns, StringSliceAdditionalSpecFns};
use vstd::utf8::{decode_utf8, encode_utf8_decode_utf8, is_char_boundary};
use crate::path::{ProgramPath, join_spec, file_name_spec};

verus! {

/// The number of bytes of a source text that the preview shows.
pub const PREVIEW_LIMIT: usize = 20000;

/// What follows a preview that was cut.
pub const TRUNCATION_NOTICE: &'static str = "\n\n… (truncated preview)";

/// The file whose text previews a selection: for a folder, its `src/lib.rs`
/// when that is a file, else its `src/main.rs` when that is a file, else its
/// `Cargo.toml`; any other selection is previewed itself.
pub open spec fn preview_file_spec(
    selection: crate::path::PathView,
    is_dir: bool,
    lib_is_file: bool,
    main_is_file: bool,
) -> crate::path::PathView {
    if is_dir {
        if lib_is_file {
            join_spec(join_spec(selection, "src"@), "lib.rs"@)
        } else if main_is_file {
            join_spec(join_spec(selection, "src"@), "main.rs"@)
        } else {
            join_spec(selection, "Cargo.toml"@)
        }
    } else {
        selection
    }
}

/// `src/lib.rs` inside a folder.
pub fn library_source(folder: &ProgramPath) -> (res: ProgramPath)
    ensures
        res@ == join_spec(join_spec(folder@, "src"@), "lib.rs"@),
{
    folder.join("src").join("lib.rs")
}

/// `src/main.rs` inside a folder.
pub fn binary_source(folder: &ProgramPath) -> (res: ProgramPath)
    ensures
        res@ == join_spec(join_spec(folder@, "src"@), "main.rs"@),
{
    folder.join("src").join("main.rs")
}

/// Chooses the file to preview for `selection`, given whether it is a folder
/// and whether its `src/lib.rs` and `src/main.rs` are files.
pub fn preview_file(selection: &ProgramPath, is_dir: bool, lib_is_file: bool, main_is_file: bool) -> (res:
    ProgramPath)
    ensures
        res@ == preview_file_spec(selection@, is_dir, lib_is_file, main_is_file),
{
    if is_dir {
        if lib_is_file {
            library_source(selection)
        } else if main_is_file {
            binary_source(selection)
        } else {
            selection.join("Cargo.toml")
        }
    } else {
        selection.duplicate()
    }
}

/// The preview of a source text: the text itself when it is at most
/// `PREVIEW_LIMIT` bytes long, otherwise its first `PREVIEW_LIMIT` bytes
/// followed by `TRUNCATION_NOTICE`. The cut must fall on a character
/// boundary.
pub fn preview_text(text: &str) -> (res: String)
    requires
        text.spec_bytes().len() <= PREVIEW_LIMIT || is_char_boundary(
            text.spec_bytes(),
            PREVIEW_LIMIT as int,
        ),
    ensures
        text.spec_bytes().len() <= PREVIEW_LIMIT ==> res@ == text@,
        text.spec_bytes().len() > PREVIEW_LIMIT ==> res@ == decode_utf8(
            text.spec_bytes().take(PREVIEW_LIMIT as int),
        ) + TRUNCATION_NOTICE@,
{
    let byte_len = text.as_bytes().len();
    if byte_len > PREVIEW_LIMIT {
        let (head, _rest) = text.split_at(PREVIEW_LIMIT);
        proof {
            encode_utf8_decode_utf8(head@);
            assert(text.spec_bytes().take(PREVIEW_LIMIT as int) =~= head.spec_bytes());
        }
        head.to_owned().concat(TRUNCATION_NOTICE)
    } else {
        text.to_owned()
    }
}

/// A folder whose `src/lib.rs` is a file is previewed by that file, whether
/// or not it also has a `src/main.rs`; a selection that is not a folder is
/// previewed itself.
pub proof fn preview_prefers_the_library_source(
    selection: crate::path::PathView,
    lib_is_file: bool,
    main_is_file: bool,
)
    ensures
        lib_is_file ==> preview_file_spec(selection, true, lib_is_file, main_is_file) == join_spec(
            join_spec(selection, "src"@),
            "lib.rs"@,
        ),
        lib_is_file ==> file_name_spec(preview_file_spec(selection, true, lib_is_file, main_is_file))
            == Some("lib.rs"@),
        preview_file_spec(selection, true, true, main_is_file) == preview_file_spec(
            selection,
            true,
            true,
            !main_is_file,
        ),
        preview_file_spec(selection, false, lib_is_file, main_is_file) == selection,
{
}

} // verus!
