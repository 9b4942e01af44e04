//! Classification of a file name into a destination subfolder by its
//! extension: the extension is lower-cased, any query-string tail after `?`
//! is cut off, and the result is looked up in fixed membership tables.

use vstd::prelude::*;

use crate::strnum::{after_last, first_ix, lemma_first_ix, scan_after_last, str_eq};

verus! {

/// ASCII lower-casing of one character; everything but `A`..`Z` is kept.
pub open spec fn lower_char(c: char) -> char {
    if c == 'A' {
        'a'
    } else
    if c == 'B' {
        'b'
    } else
    if c == 'C' {
        'c'
    } else
    if c == 'D' {
        'd'
    } else
    if c == 'E' {
        'e'
    } else
    if c == 'F' {
        'f'
    } else
    if c == 'G' {
        'g'
    } else
    if c == 'H' {
        'h'
    } else
    if c == 'I' {
        'i'
    } else
    if c == 'J' {
        'j'
    } else
    if c == 'K' {
        'k'
    } else
    if c == 'L' {
        'l'
    } else
    if c == 'M' {
        'm'
    } else
    if c == 'N' {
        'n'
    } else
    if c == 'O' {
        'o'
    } else
    if c == 'P' {
        'p'
    } else
    if c == 'Q' {
        'q'
    } else
    if c == 'R' {
        'r'
    } else
    if c == 'S' {
        's'
    } else
    if c == 'T' {
        't'
    } else
    if c == 'U' {
        'u'
    } else
    if c == 'V' {
        'v'
    } else
    if c == 'W' {
        'w'
    } else
    if c == 'X' {
        'x'
    } else
    if c == 'Y' {
        'y'
    } else
    if c == 'Z' {
        'z'
    } else {
        c
    }
}

fn lower_piece<'a>(name: &'a str, i: usize) -> (r: &'a str)
    requires
        i < name@.len(),
        name@.len() <= usize::MAX,
    ensures
        r@ =~= seq![lower_char(name@[i as int])],
{
    let c = name.get_char(i);
    proof {
        reveal_strlit("a");
        reveal_strlit("b");
        reveal_strlit("c");
        reveal_strlit("d");
        reveal_strlit("e");
        reveal_strlit("f");
        reveal_strlit("g");
        reveal_strlit("h");
        reveal_strlit("i");
        reveal_strlit("j");
        reveal_strlit("k");
        reveal_strlit("l");
        reveal_strlit("m");
        reveal_strlit("n");
        reveal_strlit("o");
        reveal_strlit("p");
        reveal_strlit("q");
        reveal_strlit("r");
        reveal_strlit("s");
        reveal_strlit("t");
        reveal_strlit("u");
        reveal_strlit("v");
        reveal_strlit("w");
        reveal_strlit("x");
        reveal_strlit("y");
        reveal_strlit("z");
    }
    if c == 'A' {
        "a"
    } else if c == 'B' {
        "b"
    } else if c == 'C' {
        "c"
    } else if c == 'D' {
        "d"
    } else if c == 'E' {
        "e"
    } else if c == 'F' {
        "f"
    } else if c == 'G' {
        "g"
    } else if c == 'H' {
        "h"
    } else if c == 'I' {
        "i"
    } else if c == 'J' {
        "j"
    } else if c == 'K' {
        "k"
    } else if c == 'L' {
        "l"
    } else if c == 'M' {
        "m"
    } else if c == 'N' {
        "n"
    } else if c == 'O' {
        "o"
    } else if c == 'P' {
        "p"
    } else if c == 'Q' {
        "q"
    } else if c == 'R' {
        "r"
    } else if c == 'S' {
        "s"
    } else if c == 'T' {
        "t"
    } else if c == 'U' {
        "u"
    } else if c == 'V' {
        "v"
    } else if c == 'W' {
        "w"
    } else if c == 'X' {
        "x"
    } else if c == 'Y' {
        "y"
    } else if c == 'Z' {
        "z"
    } else {
        name.substring_char(i, i + 1)
    }
}

/// Extensions classed as audio.
pub open spec fn is_audio_ext(e: Seq<char>) -> bool {
    e == "act"@
    || e == "aiff"@
    || e == "aac"@
    || e == "amr"@
    || e == "ape"@
    || e == "au"@
    || e == "awb"@
    || e == "dct"@
    || e == "dss"@
    || e == "dvf"@
    || e == "flac"@
    || e == "gsm"@
    || e == "iklax"@
    || e == "ivs"@
    || e == "m4a"@
    || e == "m4p"@
    || e == "mmf"@
    || e == "mp3"@
    || e == "mpc"@
    || e == "msv"@
    || e == "ogg"@
    || e == "oga"@
    || e == "opus"@
    || e == "ra"@
    || e == "raw"@
    || e == "sln"@
    || e == "tta"@
    || e == "vox"@
    || e == "wav"@
    || e == "wma"@
    || e == "wv"@
}

fn is_audio(e: &str) -> (r: bool)
    ensures
        r == is_audio_ext(e@),
{
    str_eq(e, "act")
    || str_eq(e, "aiff")
    || str_eq(e, "aac")
    || str_eq(e, "amr")
    || str_eq(e, "ape")
    || str_eq(e, "au")
    || str_eq(e, "awb")
    || str_eq(e, "dct")
    || str_eq(e, "dss")
    || str_eq(e, "dvf")
    || str_eq(e, "flac")
    || str_eq(e, "gsm")
    || str_eq(e, "iklax")
    || str_eq(e, "ivs")
    || str_eq(e, "m4a")
    || str_eq(e, "m4p")
    || str_eq(e, "mmf")
    || str_eq(e, "mp3")
    || str_eq(e, "mpc")
    || str_eq(e, "msv")
    || str_eq(e, "ogg")
    || str_eq(e, "oga")
    || str_eq(e, "opus")
    || str_eq(e, "ra")
    || str_eq(e, "raw")
    || str_eq(e, "sln")
    || str_eq(e, "tta")
    || str_eq(e, "vox")
    || str_eq(e, "wav")
    || str_eq(e, "wma")
    || str_eq(e, "wv")
}

/// Extensions classed as video.
pub open spec fn is_video_ext(e: Seq<char>) -> bool {
    e == "3g2"@
    || e == "3gp"@
    || e == "asf"@
    || e == "avi"@
    || e == "drc"@
    || e == "flv"@
    || e == "m4v"@
    || e == "mkv"@
    || e == "mng"@
    || e == "mov"@
    || e == "qt"@
    || e == "mp4"@
    || e == "m4p"@
    || e == "mpg"@
    || e == "mp2"@
    || e == "mpeg"@
    || e == "mpe"@
    || e == "mpv"@
    || e == "m2v"@
    || e == "mxf"@
    || e == "nsv"@
    || e == "ogv"@
    || e == "rmvb"@
    || e == "roq"@
    || e == "svi"@
    || e == "vob"@
    || e == "webm"@
    || e == "wmv"@
    || e == "yuv"@
    || e == "rm"@
}

fn is_video(e: &str) -> (r: bool)
    ensures
        r == is_video_ext(e@),
{
    str_eq(e, "3g2")
    || str_eq(e, "3gp")
    || str_eq(e, "asf")
    || str_eq(e, "avi")
    || str_eq(e, "drc")
    || str_eq(e, "flv")
    || str_eq(e, "m4v")
    || str_eq(e, "mkv")
    || str_eq(e, "mng")
    || str_eq(e, "mov")
    || str_eq(e, "qt")
    || str_eq(e, "mp4")
    || str_eq(e, "m4p")
    || str_eq(e, "mpg")
    || str_eq(e, "mp2")
    || str_eq(e, "mpeg")
    || str_eq(e, "mpe")
    || str_eq(e, "mpv")
    || str_eq(e, "m2v")
    || str_eq(e, "mxf")
    || str_eq(e, "nsv")
    || str_eq(e, "ogv")
    || str_eq(e, "rmvb")
    || str_eq(e, "roq")
    || str_eq(e, "svi")
    || str_eq(e, "vob")
    || str_eq(e, "webm")
    || str_eq(e, "wmv")
    || str_eq(e, "yuv")
    || str_eq(e, "rm")
}

/// Extensions classed as documents.
pub open spec fn is_document_ext(e: Seq<char>) -> bool {
    e == "doc"@
    || e == "docx"@
    || e == "html"@
    || e == "htm"@
    || e == "fb2"@
    || e == "odt"@
    || e == "sxw"@
    || e == "pdf"@
    || e == "ps"@
    || e == "rtf"@
    || e == "tex"@
    || e == "txt"@
    || e == "epub"@
    || e == "pub"@
    || e == "mobi"@
    || e == "azw"@
    || e == "azw3"@
    || e == "azw4"@
    || e == "kf8"@
    || e == "chm"@
    || e == "cbt"@
    || e == "cbr"@
    || e == "cbz"@
    || e == "cb7"@
    || e == "cba"@
    || e == "ibooks"@
    || e == "djvu"@
    || e == "md"@
}

fn is_document(e: &str) -> (r: bool)
    ensures
        r == is_document_ext(e@),
{
    str_eq(e, "doc")
    || str_eq(e, "docx")
    || str_eq(e, "html")
    || str_eq(e, "htm")
    || str_eq(e, "fb2")
    || str_eq(e, "odt")
    || str_eq(e, "sxw")
    || str_eq(e, "pdf")
    || str_eq(e, "ps")
    || str_eq(e, "rtf")
    || str_eq(e, "tex")
    || str_eq(e, "txt")
    || str_eq(e, "epub")
    || str_eq(e, "pub")
    || str_eq(e, "mobi")
    || str_eq(e, "azw")
    || str_eq(e, "azw3")
    || str_eq(e, "azw4")
    || str_eq(e, "kf8")
    || str_eq(e, "chm")
    || str_eq(e, "cbt")
    || str_eq(e, "cbr")
    || str_eq(e, "cbz")
    || str_eq(e, "cb7")
    || str_eq(e, "cba")
    || str_eq(e, "ibooks")
    || str_eq(e, "djvu")
    || str_eq(e, "md")
}

/// Extensions classed as compressed archives.
pub open spec fn is_compressed_ext(e: Seq<char>) -> bool {
    e == "a"@
    || e == "ar"@
    || e == "cpio"@
    || e == "shar"@
    || e == "LBR"@
    || e == "iso"@
    || e == "lbr"@
    || e == "mar"@
    || e == "tar"@
    || e == "bz2"@
    || e == "F"@
    || e == "gz"@
    || e == "lz"@
    || e == "lzma"@
    || e == "lzo"@
    || e == "rz"@
    || e == "sfark"@
    || e == "sz"@
    || e == "xz"@
    || e == "Z"@
    || e == "z"@
    || e == "infl"@
    || e == "7z"@
    || e == "s7z"@
    || e == "ace"@
    || e == "afa"@
    || e == "alz"@
    || e == "apk"@
    || e == "arc"@
    || e == "arj"@
    || e == "b1"@
    || e == "ba"@
    || e == "bh"@
    || e == "cab"@
    || e == "cfs"@
    || e == "cpt"@
    || e == "dar"@
    || e == "dd"@
    || e == "dgc"@
    || e == "dmg"@
    || e == "ear"@
    || e == "gca"@
    || e == "ha"@
    || e == "hki"@
    || e == "ice"@
    || e == "jar"@
    || e == "kgb"@
    || e == "lzh"@
    || e == "lha"@
    || e == "lzx"@
    || e == "pac"@
    || e == "partimg"@
    || e == "paq6"@
    || e == "paq7"@
    || e == "paq8"@
    || e == "pea"@
    || e == "pim"@
    || e == "pit"@
    || e == "qda"@
    || e == "rar"@
    || e == "rk"@
    || e == "sda"@
    || e == "sea"@
    || e == "sen"@
    || e == "sfx"@
    || e == "sit"@
    || e == "sitx"@
    || e == "sqx"@
    || e == "tar.gz"@
    || e == "tgz"@
    || e == "tar.Z"@
    || e == "tar.bz2"@
    || e == "tbz2"@
    || e == "tar.lzma"@
    || e == "tlz"@
    || e == "uc"@
    || e == "uc0"@
    || e == "uc2"@
    || e == "ucn"@
    || e == "ur2"@
    || e == "ue2"@
    || e == "uca"@
    || e == "uha"@
    || e == "war"@
    || e == "wim"@
    || e == "xar"@
    || e == "xp3"@
    || e == "yz1"@
    || e == "zip"@
    || e == "zipx"@
    || e == "zoo"@
    || e == "zpaq"@
    || e == "zz"@
    || e == "ecc"@
    || e == "par"@
    || e == "par2"@
}

fn is_compressed(e: &str) -> (r: bool)
    ensures
        r == is_compressed_ext(e@),
{
    str_eq(e, "a")
    || str_eq(e, "ar")
    || str_eq(e, "cpio")
    || str_eq(e, "shar")
    || str_eq(e, "LBR")
    || str_eq(e, "iso")
    || str_eq(e, "lbr")
    || str_eq(e, "mar")
    || str_eq(e, "tar")
    || str_eq(e, "bz2")
    || str_eq(e, "F")
    || str_eq(e, "gz")
    || str_eq(e, "lz")
    || str_eq(e, "lzma")
    || str_eq(e, "lzo")
    || str_eq(e, "rz")
    || str_eq(e, "sfark")
    || str_eq(e, "sz")
    || str_eq(e, "xz")
    || str_eq(e, "Z")
    || str_eq(e, "z")
    || str_eq(e, "infl")
    || str_eq(e, "7z")
    || str_eq(e, "s7z")
    || str_eq(e, "ace")
    || str_eq(e, "afa")
    || str_eq(e, "alz")
    || str_eq(e, "apk")
    || str_eq(e, "arc")
    || str_eq(e, "arj")
    || str_eq(e, "b1")
    || str_eq(e, "ba")
    || str_eq(e, "bh")
    || str_eq(e, "cab")
    || str_eq(e, "cfs")
    || str_eq(e, "cpt")
    || str_eq(e, "dar")
    || str_eq(e, "dd")
    || str_eq(e, "dgc")
    || str_eq(e, "dmg")
    || str_eq(e, "ear")
    || str_eq(e, "gca")
    || str_eq(e, "ha")
    || str_eq(e, "hki")
    || str_eq(e, "ice")
    || str_eq(e, "jar")
    || str_eq(e, "kgb")
    || str_eq(e, "lzh")
    || str_eq(e, "lha")
    || str_eq(e, "lzx")
    || str_eq(e, "pac")
    || str_eq(e, "partimg")
    || str_eq(e, "paq6")
    || str_eq(e, "paq7")
    || str_eq(e, "paq8")
    || str_eq(e, "pea")
    || str_eq(e, "pim")
    || str_eq(e, "pit")
    || str_eq(e, "qda")
    || str_eq(e, "rar")
    || str_eq(e, "rk")
    || str_eq(e, "sda")
    || str_eq(e, "sea")
    || str_eq(e, "sen")
    || str_eq(e, "sfx")
    || str_eq(e, "sit")
    || str_eq(e, "sitx")
    || str_eq(e, "sqx")
    || str_eq(e, "tar.gz")
    || str_eq(e, "tgz")
    || str_eq(e, "tar.Z")
    || str_eq(e, "tar.bz2")
    || str_eq(e, "tbz2")
    || str_eq(e, "tar.lzma")
    || str_eq(e, "tlz")
    || str_eq(e, "uc")
    || str_eq(e, "uc0")
    || str_eq(e, "uc2")
    || str_eq(e, "ucn")
    || str_eq(e, "ur2")
    || str_eq(e, "ue2")
    || str_eq(e, "uca")
    || str_eq(e, "uha")
    || str_eq(e, "war")
    || str_eq(e, "wim")
    || str_eq(e, "xar")
    || str_eq(e, "xp3")
    || str_eq(e, "yz1")
    || str_eq(e, "zip")
    || str_eq(e, "zipx")
    || str_eq(e, "zoo")
    || str_eq(e, "zpaq")
    || str_eq(e, "zz")
    || str_eq(e, "ecc")
    || str_eq(e, "par")
    || str_eq(e, "par2")
}

/// The file name's final path component.
pub open spec fn base_component(name: Seq<char>) -> Seq<char> {
    name.subrange(after_last(name, '/'), name.len() as int)
}

/// The name carries an extension: its final component has a `.` past the
/// first character.
pub open spec fn has_extension(name: Seq<char>) -> bool {
    after_last(base_component(name), '.') >= 2
}

/// The extension: what follows the last `.` of the final component.
pub open spec fn raw_ext(name: Seq<char>) -> Seq<char> {
    let comp = base_component(name);
    comp.subrange(after_last(comp, '.'), comp.len() as int)
}

/// The extension lower-cased and cut at the first `?`.
pub open spec fn lowered_ext(name: Seq<char>) -> Seq<char> {
    let le = raw_ext(name).map_values(|c: char| lower_char(c));
    let q = first_ix(le, '?');
    if q == -1 {
        le
    } else {
        le.subrange(0, q)
    }
}

/// The subfolder name an extension is classed into, checked in fixed order.
pub open spec fn bucket_dir(e: Seq<char>) -> Seq<char> {
    if is_audio_ext(e) {
        "Audios"@
    } else if is_video_ext(e) {
        "Videos"@
    } else if is_document_ext(e) {
        "Documents"@
    } else if is_compressed_ext(e) {
        "Compressed"@
    } else {
        "Other"@
    }
}

/// Path join: a single `/` between base and entry, none when the base is
/// empty or already ends in one.
pub open spec fn join_component(base: Seq<char>, entry: Seq<char>) -> Seq<char> {
    if base.len() == 0 || base.last() == '/' {
        base + entry
    } else {
        base + "/"@ + entry
    }
}

/// Where a download of this file name is placed: the base path itself unless
/// subfolder classification is on, else the base path joined with the bucket
/// of the lower-cased, query-stripped extension.
pub open spec fn spec_find_download_path(
    name: Seq<char>,
    base: Seq<char>,
    subfolder: Seq<char>,
) -> Seq<char> {
    if subfolder != "yes"@ {
        base
    } else {
        join_component(base, bucket_dir(lowered_ext(name)))
    }
}

/// Builds the lower-cased extension, stopping at the first `?`.
fn lowered_ext_exec(name: &str) -> (r: String)
    ensures
        r@ == lowered_ext(name@),
{
    let n = name.unicode_len();
    let bs = scan_after_last(name, 0, n, '/');
    proof {
        assert(name@.subrange(0, n as int) =~= name@);
    }
    let ds = scan_after_last(name, bs, n, '.');
    let ghost comp = base_component(name@);
    let ghost le = raw_ext(name@).map_values(|c: char| lower_char(c));
    proof {
        assert(comp =~= name@.subrange(bs as int, n as int));
        assert(raw_ext(name@) =~= name@.subrange(ds as int, n as int));
        lemma_first_ix(le, '?');
    }
    let mut r = String::new();
    let mut i: usize = ds;
    while i < n
        invariant
            ds <= i <= n,
            n == name@.len(),
            ds - bs == after_last(name@.subrange(bs as int, n as int), '.'),
            bs <= ds <= n,
            le == raw_ext(name@).map_values(|c: char| lower_char(c)),
            raw_ext(name@) =~= name@.subrange(ds as int, n as int),
            le.len() == n - ds,
            r@ =~= le.subrange(0, i - ds),
            forall|j: int| 0 <= j < i - ds ==> le[j] != '?',
        decreases n - i,
    {
        proof {
            assert(le[i - ds] == lower_char(name@[i as int]));
        }
        let c = name.get_char(i);
        if is_upper(c) {
            let piece = lower_piece(name, i);
            r.append(piece);
        } else if c == '?' {
            proof {
                lemma_first_ix(le, '?');
                assert(le[i - ds] == '?');
                assert(first_ix(le, '?') == i - ds);
                assert(r@ =~= lowered_ext(name@));
            }
            return r;
        } else {
            let piece = lower_piece(name, i);
            r.append(piece);
        }
        proof {
            assert(r@ =~= le.subrange(0, i + 1 - ds));
        }
        i += 1;
    }
    proof {
        lemma_first_ix(le, '?');
        assert(first_ix(le, '?') == -1);
        assert(r@ =~= le);
    }
    r
}

fn is_upper(c: char) -> (r: bool)
    ensures
        r == ('A' <= c && c <= 'Z'),
{
    'A' <= c && c <= 'Z'
}

/// Picks the destination folder for a file name, as `spec_find_download_path`
/// states. When classification is off the base path comes back unchanged and
/// the file name is not inspected.
pub fn find_download_path(file_name: &str, download_path: &str, subfolder: &str) -> (r: String)
    requires
        subfolder@ == "yes"@ ==> has_extension(file_name@),
    ensures
        r@ == spec_find_download_path(file_name@, download_path@, subfolder@),
{
    if !str_eq(subfolder, "yes") {
        return download_path.to_owned();
    }
    let ext = lowered_ext_exec(file_name);
    let dir: &str = if is_audio(ext.as_str()) {
        "Audios"
    } else if is_video(ext.as_str()) {
        "Videos"
    } else if is_document(ext.as_str()) {
        "Documents"
    } else if is_compressed(ext.as_str()) {
        "Compressed"
    } else {
        "Other"
    };
    let mut r = download_path.to_owned();
    let n = download_path.unicode_len();
    if n > 0 {
        let last = download_path.get_char(n - 1);
        if last != '/' {
            r.append("/");
        }
    }
    r.append(dir);
    proof {
        assert(r@ =~= spec_find_download_path(file_name@, download_path@, subfolder@));
    }
    r
}

} // verus!
