//! What a listing knows about one directory entry, and how it words it.

use crate::path::{extension_of, file_name_of, opt_view, path_extension, path_file_name};
use crate::text::{decimal, lowercase, push_decimal, str_eq, to_lowercase};
use vstd::prelude::*;
use vstd::string::StringExecFns;

verus! {

/// A point in time: whole seconds since the start of 1970 (UTC), negative
/// before it, and the nanoseconds into that second.
#[derive(Clone, Copy, Debug, PartialEq, Eq, Structural)]
pub struct Timestamp {
    pub secs: i64,
    pub nanos: u32,
}

/// One directory entry.
#[derive(Clone, Debug)]
pub struct FileInfo {
    /// Full path of the entry.
    pub path: String,
    /// Final component of the path; empty when the path has none.
    pub name: String,
    pub is_dir: bool,
    /// Length in bytes.
    pub size: u64,
    /// Time of the last modification.
    pub modified: Timestamp,
    /// Whether the name starts with a dot.
    pub is_hidden: bool,
}

/// `num / den` rounded to the nearest whole number, a tie going to the even
/// neighbour.
pub open spec fn round_half_even(num: nat, den: nat) -> nat
    recommends
        den > 0,
{
    let q = num / den;
    let r = num % den;
    if 2 * r > den || (2 * r == den && q % 2 == 1) {
        q + 1
    } else {
        q
    }
}

/// Distance between neighbouring double-precision numbers at `n`: they hold
/// 53 significant bits, so it is 1 below 2^53 and doubles with every bit above.
pub open spec fn double_spacing(n: nat) -> nat
    decreases n,
{
    if n < 0x20_0000_0000_0000 {
        1
    } else {
        2 * double_spacing(n / 2)
    }
}

/// The double-precision number nearest to `n`, a tie going to the even
/// significand. Sizes are shown as such numbers; from 2^53 bytes on that
/// changes the digits.
pub open spec fn nearest_double(n: nat) -> nat {
    round_half_even(n, double_spacing(n)) * double_spacing(n)
}

/// `value / unit` written with exactly one digit after the point, rounded
/// half to even.
pub open spec fn one_decimal(value: nat, unit: nat) -> Seq<char>
    recommends
        unit > 0,
{
    let tenths = round_half_even(value * 10, unit);
    decimal(tenths / 10) + seq!['.'] + decimal(tenths % 10)
}

/// Bytes in a KB.
pub const KIB: u64 = 1024;

/// Bytes in a MB.
pub const MIB: u64 = 1024 * 1024;

/// Bytes in a GB.
pub const GIB: u64 = 1024 * 1024 * 1024;

/// The size column of an entry: `Folder` for a directory, otherwise the
/// length in the largest unit of B, KB, MB and GB (steps of 1024) that it
/// reaches, with one decimal from KB up. Below a GB every length is a
/// double-precision number already.
pub open spec fn size_text(is_dir: bool, size: nat) -> Seq<char> {
    if is_dir {
        "Folder"@
    } else if size < KIB {
        decimal(size) + " B"@
    } else if size < MIB {
        one_decimal(size, KIB as nat) + " KB"@
    } else if size < GIB {
        one_decimal(size, MIB as nat) + " MB"@
    } else {
        one_decimal(nearest_double(size), GIB as nat) + " GB"@
    }
}

/// The text that chrono writes for an instant on a clock that runs `offset`
/// seconds ahead of UTC, following the strftime `pattern`. The instant is
/// given as whole seconds since the start of 1970 and nanoseconds into the
/// second. There is no text where chrono cannot represent the instant or
/// the offset, or cannot follow the pattern.
pub uninterp spec fn clock_text(secs: int, nanos: int, offset: int, pattern: Seq<char>) -> Option<
    Seq<char>,
>;

/// Has chrono write an instant: `FixedOffset::east_opt` for the clock,
/// `DateTime::from_timestamp` for the instant, `DateTime::with_timezone` to
/// put one on the other, then `DateTime::format` and `DelayedFormat::write_to`.
/// Trusted: the result is what chrono writes for these numbers and this
/// pattern, which [`clock_text`] names. Each step reports failure instead of
/// panicking, and any failure gives `None`.
#[verifier::external_body]
fn write_clock_text(secs: i64, nanos: u32, offset: i32, pattern: &str) -> (text: Option<String>)
    ensures
        opt_view(text) == clock_text(secs as int, nanos as int, offset as int, pattern@),
{
    let clock = chrono::FixedOffset::east_opt(offset)?;
    let instant = chrono::DateTime::from_timestamp(secs, nanos)?;
    let mut text = String::new();
    match instant.with_timezone(&clock).format(pattern).write_to(&mut text) {
        Ok(()) => Some(text),
        Err(_) => None,
    }
}

/// The name an entry goes by: the final component of its path, or nothing
/// where the path has none.
pub open spec fn entry_name(path: Seq<char>) -> Seq<char> {
    match path_file_name(path) {
        Some(name) => name,
        None => Seq::empty(),
    }
}

/// A name marks its entry as hidden by starting with a dot.
pub open spec fn is_hidden_name(name: Seq<char>) -> bool {
    name.len() > 0 && name[0] == '.'
}

/// The icon for a file with the given extension, already in lowercase.
pub open spec fn extension_icon(extension: Seq<char>) -> Seq<char> {
    if extension == "txt"@ || extension == "md"@ || extension == "rst"@ {
        "text-x-generic-symbolic"@
    } else if extension == "jpg"@ || extension == "jpeg"@ || extension == "png"@ || extension
        == "gif"@ || extension == "bmp"@ || extension == "svg"@ || extension == "webp"@ {
        "image-x-generic-symbolic"@
    } else if extension == "mp3"@ || extension == "wav"@ || extension == "ogg"@ || extension
        == "flac"@ || extension == "m4a"@ {
        "audio-x-generic-symbolic"@
    } else if extension == "mp4"@ || extension == "avi"@ || extension == "mkv"@ || extension
        == "mov"@ || extension == "webm"@ {
        "video-x-generic-symbolic"@
    } else if extension == "pdf"@ {
        "application-pdf-symbolic"@
    } else if extension == "zip"@ || extension == "tar"@ || extension == "gz"@ || extension
        == "bz2"@ || extension == "xz"@ || extension == "7z"@ || extension == "rar"@ {
        "package-x-generic-symbolic"@
    } else if extension == "rs"@ || extension == "py"@ || extension == "js"@ || extension == "c"@
        || extension == "cpp"@ || extension == "h"@ || extension == "java"@ || extension
        == "go"@ {
        "text-x-script-symbolic"@
    } else if extension == "html"@ || extension == "htm"@ || extension == "xml"@ || extension
        == "css"@ {
        "text-html-symbolic"@
    } else {
        "text-x-generic-symbolic"@
    }
}

/// The icon of an entry: a folder for a directory, otherwise chosen by the
/// extension of its path, whatever its case, and a plain sheet without one.
pub open spec fn entry_icon(is_dir: bool, path: Seq<char>) -> Seq<char> {
    if is_dir {
        "folder-symbolic"@
    } else {
        match path_extension(path) {
            Some(extension) => extension_icon(lowercase(extension)),
            None => "text-x-generic-symbolic"@,
        }
    }
}

/// Picks the icon for a file by its extension, which must be in lowercase to
/// be recognised.
pub fn icon_for_extension(extension: &str) -> (icon: &'static str)
    ensures
        icon@ == extension_icon(extension@),
{
    let e = extension;
    if str_eq(e, "txt") || str_eq(e, "md") || str_eq(e, "rst") {
        "text-x-generic-symbolic"
    } else if str_eq(e, "jpg") || str_eq(e, "jpeg") || str_eq(e, "png") || str_eq(e, "gif")
        || str_eq(e, "bmp") || str_eq(e, "svg") || str_eq(e, "webp") {
        "image-x-generic-symbolic"
    } else if str_eq(e, "mp3") || str_eq(e, "wav") || str_eq(e, "ogg") || str_eq(e, "flac")
        || str_eq(e, "m4a") {
        "audio-x-generic-symbolic"
    } else if str_eq(e, "mp4") || str_eq(e, "avi") || str_eq(e, "mkv") || str_eq(e, "mov")
        || str_eq(e, "webm") {
        "video-x-generic-symbolic"
    } else if str_eq(e, "pdf") {
        "application-pdf-symbolic"
    } else if str_eq(e, "zip") || str_eq(e, "tar") || str_eq(e, "gz") || str_eq(e, "bz2")
        || str_eq(e, "xz") || str_eq(e, "7z") || str_eq(e, "rar") {
        "package-x-generic-symbolic"
    } else if str_eq(e, "rs") || str_eq(e, "py") || str_eq(e, "js") || str_eq(e, "c") || str_eq(
        e,
        "cpp",
    ) || str_eq(e, "h") || str_eq(e, "java") || str_eq(e, "go") {
        "text-x-script-symbolic"
    } else if str_eq(e, "html") || str_eq(e, "htm") || str_eq(e, "xml") || str_eq(e, "css") {
        "text-html-symbolic"
    } else {
        "text-x-generic-symbolic"
    }
}

/// Computes [`round_half_even`].
fn div_round_half_even(num: u128, den: u128) -> (rounded: u128)
    requires
        0 < den,
        num < u128::MAX,
    ensures
        rounded == round_half_even(num as nat, den as nat),
        num / den <= rounded <= num / den + 1,
{
    let q = num / den;
    let r = num % den;
    if r > den - r || (r == den - r && q % 2 == 1) {
        q + 1
    } else {
        q
    }
}

/// Computes [`nearest_double`].
fn round_to_double(n: u64) -> (rounded: u128)
    ensures
        rounded == nearest_double(n as nat),
        rounded <= 2 * n,
        n < 0x20_0000_0000_0000 ==> rounded == n,
{
    let mut unit: u128 = 1;
    let mut rest: u64 = n;
    while rest >= 0x20_0000_0000_0000
        invariant
            unit >= 1,
            unit * rest <= n,
            unit == 1 || rest >= 0x10_0000_0000_0000,
            n < 0x20_0000_0000_0000 ==> unit == 1,
            double_spacing(n as nat) == unit * double_spacing(rest as nat),
        decreases rest,
    {
        assert(2 * unit * (rest / 2) <= unit * rest) by (nonlinear_arith)
            requires
                unit >= 1,
        ;
        assert(unit * (2 * double_spacing((rest / 2) as nat)) == (2 * unit) * double_spacing(
            (rest / 2) as nat,
        )) by (nonlinear_arith);
        assert(unit <= n) by (nonlinear_arith)
            requires
                unit * rest <= n,
                rest >= 1,
                unit >= 1,
        ;
        rest = rest / 2;
        unit = unit * 2;
    }
    assert(unit <= n || unit == 1) by (nonlinear_arith)
        requires
            unit * rest <= n,
            unit >= 1,
            unit == 1 || rest >= 1,
    ;
    assert(double_spacing(n as nat) == unit) by {
        assert(double_spacing(rest as nat) == 1);
        assert(unit * 1 == unit) by (nonlinear_arith);
    }
    let q = div_round_half_even(n as u128, unit);
    assert(q * unit <= 2 * n) by {
        if unit == 1 {
            assert(q == n);
        } else {
            assert(q * unit <= n + unit) by (nonlinear_arith)
                requires
                    q <= (n as u128) / unit + 1,
                    unit >= 1,
            ;
        }
    }
    q * unit
}

/// Appends `value / unit` with one decimal to `out`.
fn push_one_decimal(out: &mut String, value: u128, unit: u128)
    requires
        0 < unit,
        value <= 0x2_0000_0000_0000_0000,
    ensures
        final(out)@ == old(out)@ + one_decimal(value as nat, unit as nat),
{
    let tenths = div_round_half_even(value * 10, unit);
    push_decimal(out, tenths / 10);
    proof {
        reveal_strlit(".");
        assert("."@ =~= seq!['.']);
    }
    out.append(".");
    push_decimal(out, tenths % 10);
    assert(final(out)@ =~= old(out)@ + one_decimal(value as nat, unit as nat));
}

impl FileInfo {
    /// Describes the entry at `path` from what the file system reports about
    /// it. Name and hidden flag are worked out from the path.
    pub fn new(path: String, is_dir: bool, size: u64, modified: Timestamp) -> (info: Self)
        ensures
            info.path@ == path@,
            info.name@ == entry_name(path@),
            info.is_dir == is_dir,
            info.size == size,
            info.modified == modified,
            info.is_hidden == is_hidden_name(entry_name(path@)),
    {
        let name = match file_name_of(path.as_str()) {
            Some(name) => name,
            None => String::new(),
        };
        let is_hidden = !name.as_str().is_empty() && name.as_str().get_char(0) == '.';
        FileInfo { path, name, is_dir, size, modified, is_hidden }
    }

    /// The text of the modification column, `year-month-day hour:minute:second`,
    /// read off a clock that runs `utc_offset` seconds ahead of UTC. `None`
    /// when chrono cannot represent the time or the offset.
    pub fn format_modified(&self, utc_offset: i32) -> (text: Option<String>)
        ensures
            opt_view(text) == clock_text(
                self.modified.secs as int,
                self.modified.nanos as int,
                utc_offset as int,
                "%Y-%m-%d %H:%M:%S"@,
            ),
    {
        write_clock_text(self.modified.secs, self.modified.nanos, utc_offset, "%Y-%m-%d %H:%M:%S")
    }

    /// The name of the icon that stands for the entry.
    pub fn icon_name(&self) -> (icon: &'static str)
        ensures
            icon@ == entry_icon(self.is_dir, self.path@),
    {
        if self.is_dir {
            "folder-symbolic"
        } else {
            match extension_of(self.path.as_str()) {
                Some(extension) => icon_for_extension(to_lowercase(extension.as_str()).as_str()),
                None => "text-x-generic-symbolic",
            }
        }
    }

    /// The text of the size column.
    pub fn format_size(&self) -> (text: String)
        ensures
            text@ == size_text(self.is_dir, self.size as nat),
    {
        let mut text = String::new();
        if self.is_dir {
            text.append("Folder");
        } else if self.size < KIB {
            push_decimal(&mut text, self.size as u128);
            text.append(" B");
        } else if self.size < MIB {
            push_one_decimal(&mut text, self.size as u128, KIB as u128);
            text.append(" KB");
        } else if self.size < GIB {
            push_one_decimal(&mut text, self.size as u128, MIB as u128);
            text.append(" MB");
        } else {
            push_one_decimal(&mut text, round_to_double(self.size), GIB as u128);
            text.append(" GB");
        }
        assert(text@ =~= size_text(self.is_dir, self.size as nat));
        text
    }
}

} // verus!
