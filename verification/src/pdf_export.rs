//! Where a PDF export may be written: what a destination must look like
//! before the directory on disk is consulted.
use crate::file_names::{has_extension, has_extension_ignoring_case};
use crate::text::{string_from_chars, trim, trim_str};
use vstd::prelude::*;

verus! {

/// Why a PDF destination is refused before the disk is looked at.
#[derive(Debug, Clone, Copy, PartialEq, Eq, Structural)]
pub enum PdfDestinationError {
    Missing,
    NotAbsolute,
    NotPdf,
    NoDirectory,
    IsDirectory,
    NotExported,
}

impl PdfDestinationError {
    pub open spec fn message_spec(self) -> Seq<char> {
        match self {
            PdfDestinationError::Missing => "请选择 PDF 导出位置"@,
            PdfDestinationError::NotAbsolute => "PDF 导出路径必须是绝对路径"@,
            PdfDestinationError::NotPdf => "PDF 导出文件必须使用 .pdf 扩展名"@,
            PdfDestinationError::NoDirectory => "PDF 导出目录不存在"@,
            PdfDestinationError::IsDirectory => "PDF 导出位置不能是目录"@,
            PdfDestinationError::NotExported => "找不到已导出的 PDF 文件"@,
        }
    }

    pub fn message(self) -> (r: &'static str)
        ensures
            r@ == self.message_spec(),
    {
        match self {
            PdfDestinationError::Missing => "请选择 PDF 导出位置",
            PdfDestinationError::NotAbsolute => "PDF 导出路径必须是绝对路径",
            PdfDestinationError::NotPdf => "PDF 导出文件必须使用 .pdf 扩展名",
            PdfDestinationError::NoDirectory => "PDF 导出目录不存在",
            PdfDestinationError::IsDirectory => "PDF 导出位置不能是目录",
            PdfDestinationError::NotExported => "找不到已导出的 PDF 文件",
        }
    }
}

/// What every platform asks of an absolute path before anything else: it
/// starts with a separator (`/` on Unix; a root or a `\\`, `\\?\` or
/// `//` prefix on Windows) or names a drive (`C:`).
pub open spec fn may_be_absolute(path: Seq<char>) -> bool {
    path.len() > 0 && (path[0] == '/' || path[0] == '\\' || (path.len() >= 2 && path[1] == ':'))
}

/// `Path::is_absolute`. Whether a path is absolute depends on the platform:
/// a leading `/` on Unix, a drive or share prefix followed by a root on
/// Windows. Stated here is only what holds on each of them, that an absolute
/// path starts with a separator or names a drive; which of those paths are
/// absolute is left to the platform.
#[verifier::external_body]
fn is_absolute_path(path: &str) -> (r: bool)
    ensures
        r ==> may_be_absolute(path@),
{
    std::path::Path::new(path).is_absolute()
}

/// The checks in order, given whether the trimmed destination is absolute.
pub open spec fn destination_check_spec(trimmed: Seq<char>, is_absolute: bool) -> Result<
    Seq<char>,
    PdfDestinationError,
> {
    if trimmed.len() == 0 {
        Err(PdfDestinationError::Missing)
    } else if !is_absolute {
        Err(PdfDestinationError::NotAbsolute)
    } else if !has_extension_ignoring_case(trimmed, "pdf"@) {
        Err(PdfDestinationError::NotPdf)
    } else {
        Ok(trimmed)
    }
}

/// The destination checks once the platform has said whether the trimmed
/// path is absolute.
pub fn check_pdf_destination(trimmed: &str, is_absolute: bool) -> (r: Result<
    String,
    PdfDestinationError,
>)
    ensures
        match destination_check_spec(trimmed@, is_absolute) {
            Ok(path) => r is Ok && r->Ok_0@ == path,
            Err(e) => r == Err::<String, PdfDestinationError>(e),
        },
{
    proof {
        reveal_strlit("pdf");
        assert(crate::text::ascii_lower_seq("pdf"@) =~= "pdf"@);
    }
    if crate::text::chars_of(trimmed).len() == 0 {
        return Err(PdfDestinationError::Missing);
    }
    if !is_absolute {
        return Err(PdfDestinationError::NotAbsolute);
    }
    if !has_extension(trimmed, "pdf") {
        return Err(PdfDestinationError::NotPdf);
    }
    Ok(trimmed.to_string())
}

/// A PDF destination, trimmed, that is absolute and ends in `.pdf`; whether
/// its directory exists is for the caller to see on disk.
pub fn validate_pdf_destination(value: &str) -> (r: Result<String, PdfDestinationError>)
    ensures
        trim(value@).len() == 0 ==> r == Err::<String, PdfDestinationError>(
            PdfDestinationError::Missing,
        ),
        r is Ok ==> r->Ok_0@ == trim(value@) && has_extension_ignoring_case(trim(value@), "pdf"@),
        trim(value@).len() > 0 && !has_extension_ignoring_case(trim(value@), "pdf"@) ==> r is Err,
        r is Err ==> r->Err_0 == PdfDestinationError::Missing || r->Err_0
            == PdfDestinationError::NotAbsolute || r->Err_0 == PdfDestinationError::NotPdf,
        (r == Err::<String, PdfDestinationError>(PdfDestinationError::Missing)) <==> trim(
            value@,
        ).len() == 0,
        trim(value@).len() > 0 && !may_be_absolute(trim(value@)) ==> r == Err::<
            String,
            PdfDestinationError,
        >(PdfDestinationError::NotAbsolute),
        exists|absolute: bool|
            (absolute ==> may_be_absolute(trim(value@))) && match #[trigger] destination_check_spec(
                trim(value@),
                absolute,
            ) {
                Ok(path) => r is Ok && r->Ok_0@ == path,
                Err(e) => r == Err::<String, PdfDestinationError>(e),
            },
{
    let trimmed_chars = trim_str(value);
    let trimmed = string_from_chars(&trimmed_chars);
    let absolute = is_absolute_path(trimmed.as_str());
    let r = check_pdf_destination(trimmed.as_str(), absolute);
    assert((absolute ==> may_be_absolute(trim(value@))) && match destination_check_spec(
        trim(value@),
        absolute,
    ) {
        Ok(path) => r is Ok && r->Ok_0@ == path,
        Err(e) => r == Err::<String, PdfDestinationError>(e),
    });
    r
}

/// What the disk says of a valid destination: its directory must exist and
/// the destination itself must not be a directory.
pub fn check_pdf_target(parent_is_dir: bool, destination_is_dir: bool) -> (r: Result<(), PdfDestinationError>)
    ensures
        !parent_is_dir ==> r == Err::<(), PdfDestinationError>(PdfDestinationError::NoDirectory),
        parent_is_dir && destination_is_dir ==> r == Err::<(), PdfDestinationError>(
            PdfDestinationError::IsDirectory,
        ),
        parent_is_dir && !destination_is_dir ==> r is Ok,
{
    if !parent_is_dir {
        return Err(PdfDestinationError::NoDirectory);
    }
    if destination_is_dir {
        return Err(PdfDestinationError::IsDirectory);
    }
    Ok(())
}

/// An export is done once the file is there.
pub fn check_exported_pdf(is_file: bool) -> (r: Result<(), PdfDestinationError>)
    ensures
        is_file <==> r is Ok,
        !is_file ==> r == Err::<(), PdfDestinationError>(PdfDestinationError::NotExported),
{
    if !is_file {
        return Err(PdfDestinationError::NotExported);
    }
    Ok(())
}

} // verus!
