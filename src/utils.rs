//! Paths held as text, output-path derivation and the per-file task.
//!
//! A path is the text of a Unix path: components are separated by `/`,
//! trailing separators and trailing `.` components are skipped, and a path
//! whose last component is then empty, `.` or `..` has no file name.
use vstd::prelude::*;
use crate::config::{OUTPUT_SUFFIX, VIDEO_EXTENSION};
use crate::error::{FileSystemError, FileSystemResult};
use crate::text::{append_chars, append_str, chars_of, lower_of, lowercase, same_text, slice_chars, string_from};

verus! {

/// `s` without its trailing `/` characters and trailing `.` components.
pub open spec fn trim_slashes(s: Seq<char>) -> Seq<char>
    decreases s.len(),
{
    if s.len() > 0 && s.last() == '/' {
        trim_slashes(s.drop_last())
    } else if s.len() >= 2 && s.last() == '.' && s[s.len() - 2] == '/' {
        trim_slashes(s.drop_last())
    } else {
        s
    }
}

/// The position just past the last `/` of `s`, or 0 when it has none.
pub open spec fn name_start(s: Seq<char>) -> int
    decreases s.len(),
{
    if s.len() == 0 {
        0
    } else if s.last() == '/' {
        s.len() as int
    } else {
        name_start(s.drop_last())
    }
}

/// The text after the last separator, once trailing separators are dropped.
pub open spec fn last_component(p: Seq<char>) -> Seq<char> {
    let t = trim_slashes(p);
    t.subrange(name_start(t), t.len() as int)
}

/// The final component of a path, unless it is empty, `.` or `..`.
pub open spec fn file_name(p: Seq<char>) -> Option<Seq<char>> {
    let c = last_component(p);
    if c.len() == 0 || c == seq!['.'] || c == seq!['.', '.'] {
        None
    } else {
        Some(c)
    }
}

/// The position of the last `.` of `s`, or -1 when it has none.
pub open spec fn last_dot(s: Seq<char>) -> int
    decreases s.len(),
{
    if s.len() == 0 {
        -1
    } else if s.last() == '.' {
        s.len() - 1
    } else {
        last_dot(s.drop_last())
    }
}

/// The file name without its extension: all of it when it has no `.` past
/// its first character, else the part before the last `.`.
pub open spec fn file_stem(p: Seq<char>) -> Option<Seq<char>> {
    match file_name(p) {
        None => None,
        Some(n) => if last_dot(n) <= 0 {
            Some(n)
        } else {
            Some(n.take(last_dot(n)))
        },
    }
}

/// The part of the file name after its last `.`, when that `.` is not its
/// first character.
pub open spec fn extension(p: Seq<char>) -> Option<Seq<char>> {
    match file_name(p) {
        None => None,
        Some(n) => if last_dot(n) <= 0 {
            None
        } else {
            Some(n.skip(last_dot(n) + 1))
        },
    }
}

/// `name` placed inside `dir`; a name that starts with `/` stands alone.
pub open spec fn join_path(dir: Seq<char>, name: Seq<char>) -> Seq<char> {
    if name.len() > 0 && name[0] == '/' {
        name
    } else if dir.len() == 0 {
        name
    } else if dir.last() == '/' {
        dir + name
    } else {
        dir + seq!['/'] + name
    }
}

/// The stem of the input, or `unknown` when it has none.
pub open spec fn stem_or_unknown(p: Seq<char>) -> Seq<char> {
    match file_stem(p) {
        Some(s) => s,
        None => "unknown"@,
    }
}

/// The extension of the input, or the video extension when it has none.
pub open spec fn extension_or_default(p: Seq<char>) -> Seq<char> {
    match extension(p) {
        Some(e) => e,
        None => VIDEO_EXTENSION@,
    }
}

/// File name of the output made from `input`: stem, suffix, dot, extension.
pub open spec fn output_file_name(input: Seq<char>) -> Seq<char> {
    stem_or_unknown(input) + OUTPUT_SUFFIX@ + seq!['.'] + extension_or_default(input)
}

/// Where the output made from `input` goes inside `output_dir`.
pub open spec fn output_path_for(input: Seq<char>, output_dir: Seq<char>) -> Seq<char> {
    join_path(output_dir, output_file_name(input))
}

/// Whether a path names a video file that is processed: its extension, in
/// lower case, is the video extension.
pub open spec fn is_video_path(p: Seq<char>) -> bool {
    match extension(p) {
        Some(e) => lower_of(e) == VIDEO_EXTENSION@,
        None => false,
    }
}

/// The file name of a path, or `unknown` when it has none.
pub open spec fn name_or_unknown(p: Seq<char>) -> Seq<char> {
    match file_name(p) {
        Some(n) => n,
        None => "unknown"@,
    }
}

pub open spec fn opt_chars(o: Option<Vec<char>>) -> Option<Seq<char>> {
    match o {
        Some(v) => Some(v@),
        None => None,
    }
}

/// Length of `v` once trailing separators and `.` components are dropped.
fn trimmed_len(v: &Vec<char>) -> (r: usize)
    ensures
        r <= v.len(),
        trim_slashes(v@) == v@.take(r as int),
{
    let mut n: usize = v.len();
    assert(v@.take(n as int) =~= v@);
    while n > 0 && (v[n - 1] == '/' || (n >= 2 && v[n - 1] == '.' && v[n - 2] == '/'))
        invariant
            n <= v.len(),
            trim_slashes(v@) == trim_slashes(v@.take(n as int)),
        decreases n,
    {
        assert(v@.take(n as int).drop_last() =~= v@.take(n - 1));
        n = n - 1;
    }
    n
}

/// Position just past the last separator among the first `end` characters.
fn name_start_in(v: &Vec<char>, end: usize) -> (r: usize)
    requires
        end <= v.len(),
    ensures
        r <= end,
        r == name_start(v@.take(end as int)),
{
    let mut i: usize = end;
    while i > 0 && v[i - 1] != '/'
        invariant
            i <= end <= v.len(),
            name_start(v@.take(end as int)) == name_start(v@.take(i as int)),
        decreases i,
    {
        assert(v@.take(i as int).drop_last() =~= v@.take(i - 1));
        i = i - 1;
    }
    i
}

/// The file name of the path held in `v`.
fn file_name_chars(v: &Vec<char>) -> (r: Option<Vec<char>>)
    ensures
        opt_chars(r) == file_name(v@),
{
    let end = trimmed_len(v);
    let start = name_start_in(v, end);
    let c = slice_chars(v, start, end);
    assert(c@ =~= last_component(v@));
    if c.len() == 0 || (c.len() == 1 && c[0] == '.') || (c.len() == 2 && c[0] == '.' && c[1]
        == '.') {
        if c.len() == 1 {
            assert(c@ =~= seq!['.']);
        }
        if c.len() == 2 {
            assert(c@ =~= seq!['.', '.']);
        }
        None
    } else {
        assert(c@ != seq!['.']);
        assert(c@ != seq!['.', '.']);
        Some(c)
    }
}

/// Position of the last `.` of `v` when it is past the first character, else 0.
fn dot_split(v: &Vec<char>) -> (r: usize)
    ensures
        last_dot(v@) <= 0 ==> r == 0,
        last_dot(v@) > 0 ==> r == last_dot(v@),
        r == 0 || r < v.len(),
{
    let mut i: usize = v.len();
    assert(v@.take(i as int) =~= v@);
    while i > 0 && v[i - 1] != '.'
        invariant
            i <= v.len(),
            last_dot(v@) == last_dot(v@.take(i as int)),
        decreases i,
    {
        assert(v@.take(i as int).drop_last() =~= v@.take(i - 1));
        i = i - 1;
    }
    if i <= 1 {
        0
    } else {
        i - 1
    }
}

/// The stem and the extension of the path held in `v`.
fn stem_and_extension(v: &Vec<char>) -> (r: (Option<Vec<char>>, Option<Vec<char>>))
    ensures
        opt_chars(r.0) == file_stem(v@),
        opt_chars(r.1) == extension(v@),
{
    match file_name_chars(v) {
        None => (None, None),
        Some(n) => {
            let d = dot_split(&n);
            if d == 0 {
                (Some(n), None)
            } else {
                let stem = slice_chars(&n, 0, d);
                let ext = slice_chars(&n, d + 1, n.len());
                assert(stem@ =~= n@.take(d as int));
                assert(ext@ =~= n@.skip(d + 1));
                (Some(stem), Some(ext))
            }
        },
    }
}

/// Whether a lower-cased extension is the one of the processed videos.
pub fn is_supported_extension(lowered: &str) -> (r: bool)
    ensures
        r == (lowered@ == VIDEO_EXTENSION@),
{
    same_text(lowered, VIDEO_EXTENSION)
}

/// Whether the path names a video file that is processed.
pub fn is_supported_video_file(path: &str) -> (r: bool)
    ensures
        r == is_video_path(path@),
{
    let v = chars_of(path);
    let (_, ext) = stem_and_extension(&v);
    match ext {
        Some(e) => {
            let text = string_from(&e);
            let lowered = lowercase(text.as_str());
            is_supported_extension(lowered.as_str())
        },
        None => false,
    }
}

/// Appends `name` to the directory path held in `dir`.
fn join_chars_path(dir: &Vec<char>, name: &Vec<char>) -> (r: Vec<char>)
    ensures
        r@ == join_path(dir@, name@),
{
    if name.len() > 0 && name[0] == '/' {
        return slice_chars(name, 0, name.len());
    }
    let mut r = slice_chars(dir, 0, dir.len());
    if dir.len() > 0 && dir[dir.len() - 1] != '/' {
        r.push('/');
    }
    append_chars(&mut r, name);
    assert(dir@.subrange(0, dir.len() as int) =~= dir@);
    assert(name@.subrange(0, name.len() as int) =~= name@);
    r
}

/// The path of `name` inside the directory `dir`.
pub fn join_path_text(dir: &str, name: &str) -> (r: String)
    ensures
        r@ == join_path(dir@, name@),
{
    let d = chars_of(dir);
    let n = chars_of(name);
    let joined = join_chars_path(&d, &n);
    string_from(&joined)
}

/// The path of the output made from `input_path`, inside `output_dir`.
pub fn generate_output_path(input_path: &str, output_dir: &str) -> (r: String)
    ensures
        r@ == output_path_for(input_path@, output_dir@),
{
    let v = chars_of(input_path);
    let (stem, ext) = stem_and_extension(&v);
    let mut name: Vec<char> = match stem {
        Some(s) => s,
        None => chars_of("unknown"),
    };
    append_str(&mut name, OUTPUT_SUFFIX);
    name.push('.');
    match ext {
        Some(e) => append_chars(&mut name, &e),
        None => append_str(&mut name, VIDEO_EXTENSION),
    }
    assert(name@ =~= output_file_name(input_path@));
    let dir = chars_of(output_dir);
    let joined = join_chars_path(&dir, &name);
    string_from(&joined)
}

/// The file name of `path`, or `unknown` when it has none.
fn display_name(path: &str) -> (r: String)
    ensures
        r@ == name_or_unknown(path@),
{
    let v = chars_of(path);
    match file_name_chars(&v) {
        Some(n) => string_from(&n),
        None => "unknown".to_owned(),
    }
}

/// Largest output size, in bytes, that a run is allowed to expect.
pub const MAX_OUTPUT_BYTES: u64 = 10 * 1024 * 1024 * 1024;

/// Refuses an output whose estimated size is over the allowed maximum.
pub fn check_disk_space(_output_path: &str, estimated_size: Option<u64>) -> (r: FileSystemResult<()>)
    ensures
        (estimated_size matches Some(n) && n > MAX_OUTPUT_BYTES) ==> r == Err::<
            (),
            FileSystemError,
        >(FileSystemError::InsufficientSpace),
        !(estimated_size matches Some(n) && n > MAX_OUTPUT_BYTES) ==> r is Ok,
{
    if let Some(size) = estimated_size {
        if size > MAX_OUTPUT_BYTES {
            return Err(FileSystemError::InsufficientSpace);
        }
    }
    Ok(())
}

/// Whether a character cannot stand in a file name: a reserved punctuation
/// mark or a control character (general category Cc).
pub open spec fn is_unsafe_char(c: char) -> bool {
    c == '<' || c == '>' || c == ':' || c == '"' || c == '|' || c == '?' || c == '*' || (c as u32)
        <= 0x1f || (0x7f <= (c as u32) && (c as u32) <= 0x9f)
}

/// `s` with every unsafe character replaced by `_`.
pub open spec fn sanitized(s: Seq<char>) -> Seq<char> {
    s.map_values(|c: char| if is_unsafe_char(c) { '_' } else { c })
}

/// A file name with every unsafe character replaced by `_`.
pub fn sanitize_filename(filename: &str) -> (r: String)
    ensures
        r@ == sanitized(filename@),
{
    let v = chars_of(filename);
    let mut out: Vec<char> = Vec::new();
    let mut i: usize = 0;
    while i < v.len()
        invariant
            i <= v.len(),
            out@ == sanitized(v@.take(i as int)),
        decreases v.len() - i,
    {
        let c = v[i];
        let code = c as u32;
        let bad = c == '<' || c == '>' || c == ':' || c == '"' || c == '|' || c == '?' || c
            == '*' || code <= 0x1f || (0x7f <= code && code <= 0x9f);
        if bad {
            out.push('_');
        } else {
            out.push(c);
        }
        i = i + 1;
        assert(out@ =~= sanitized(v@.take(i as int)));
    }
    assert(v@.take(i as int) =~= v@);
    string_from(&out)
}

/// One unit of work: an input file and the output it is turned into.
#[derive(Debug)]
pub struct FileTask {
    pub input: String,
    pub output: String,
}

impl FileTask {
    pub fn new(input: String, output: String) -> (r: Self)
        ensures
            r.input == input,
            r.output == output,
    {
        FileTask { input, output }
    }

    /// Checks the task before it runs. `input_check` is the outcome of the
    /// checks on the input file, `output_dir_check` that of the checks on the
    /// output's directory; the first failure wins, then an output equal to
    /// the input is refused.
    pub fn validate(
        &self,
        input_check: FileSystemResult<()>,
        output_dir_check: FileSystemResult<()>,
    ) -> (r: FileSystemResult<()>)
        ensures
            input_check is Err ==> r == input_check,
            input_check is Ok && output_dir_check is Err ==> r == output_dir_check,
            input_check is Ok && output_dir_check is Ok && self.input@ == self.output@ ==> (r
                matches Err(FileSystemError::CannotAccessFile { path }) && path@ == self.output@),
            input_check is Ok && output_dir_check is Ok && self.input@ != self.output@ ==> r is Ok,
    {
        if input_check.is_err() {
            return input_check;
        }
        if output_dir_check.is_err() {
            return output_dir_check;
        }
        if same_text(self.input.as_str(), self.output.as_str()) {
            return Err(FileSystemError::cannot_access(self.output.clone()));
        }
        Ok(())
    }

    /// The file name of the input, for display.
    pub fn input_filename(&self) -> (r: String)
        ensures
            r@ == name_or_unknown(self.input@),
    {
        display_name(self.input.as_str())
    }

    /// The file name of the output, for display.
    pub fn output_filename(&self) -> (r: String)
        ensures
            r@ == name_or_unknown(self.output@),
    {
        display_name(self.output.as_str())
    }
}

/// One task per input file, each with its output path inside `output_dir`.
pub fn create_file_tasks(input_files: Vec<String>, output_dir: &str) -> (r: Vec<FileTask>)
    ensures
        r.len() == input_files.len(),
        forall|i: int|
            0 <= i < r.len() ==> #[trigger] r[i].input@ == input_files[i]@ && r[i].output@
                == output_path_for(input_files[i]@, output_dir@),
{
    let mut tasks: Vec<FileTask> = Vec::new();
    let mut i: usize = 0;
    while i < input_files.len()
        invariant
            i <= input_files.len(),
            tasks.len() == i,
            forall|k: int|
                0 <= k < i ==> #[trigger] tasks[k].input@ == input_files[k]@ && tasks[k].output@
                    == output_path_for(input_files[k]@, output_dir@),
        decreases input_files.len() - i,
    {
        let input = input_files[i].clone();
        let output = generate_output_path(input.as_str(), output_dir);
        tasks.push(FileTask::new(input, output));
        i = i + 1;
    }
    tasks
}

/// No separator follows the position `name_start` gives.
proof fn lemma_name_start_bounds(s: Seq<char>)
    ensures
        0 <= name_start(s) <= s.len(),
        forall|k: int| name_start(s) <= k < s.len() ==> s[k] != '/',
    decreases s.len(),
{
    if s.len() > 0 && s.last() != '/' {
        lemma_name_start_bounds(s.drop_last());
        assert forall|k: int| name_start(s) <= k < s.len() implies s[k] != '/' by {
            if k < s.len() - 1 {
                assert(s.drop_last()[k] == s[k]);
            }
        }
    }
}

/// Text without separators that follows a separator (or nothing) starts
/// the last component.
proof fn lemma_name_start_after(x: Seq<char>, y: Seq<char>)
    requires
        x.len() == 0 || x.last() == '/',
        forall|k: int| 0 <= k < y.len() ==> y[k] != '/',
    ensures
        name_start(x + y) == x.len(),
    decreases y.len(),
{
    if y.len() == 0 {
        assert(x + y =~= x);
    } else {
        assert((x + y).drop_last() =~= x + y.drop_last());
        assert((x + y).last() == y[y.len() - 1]);
        lemma_name_start_after(x, y.drop_last());
    }
}

proof fn lemma_last_dot_bounds(s: Seq<char>)
    ensures
        -1 <= last_dot(s) < s.len(),
    decreases s.len(),
{
    if s.len() > 0 {
        lemma_last_dot_bounds(s.drop_last());
    }
}

/// A file name, and so its stem and extension, holds no separator.
proof fn lemma_name_parts_plain(p: Seq<char>)
    ensures
        forall|k: int| 0 <= k < stem_or_unknown(p).len() ==> stem_or_unknown(p)[k] != '/',
        forall|k: int|
            0 <= k < extension_or_default(p).len() ==> extension_or_default(p)[k] != '/',
        stem_or_unknown(p).len() > 0,
{
    reveal_strlit("unknown");
    reveal_strlit("mp4");
    let t = trim_slashes(p);
    lemma_name_start_bounds(t);
    let c = last_component(p);
    assert forall|k: int| 0 <= k < c.len() implies c[k] != '/' by {
        assert(c[k] == t[name_start(t) + k]);
    }
    if let Some(n) = file_name(p) {
        lemma_last_dot_bounds(n);
    }
}

/// The output path of an input lies inside the output directory, and its
/// file name is the input's stem, the fixed suffix, a dot and the input's
/// extension, with `unknown` and the video extension standing in for a
/// missing stem or extension.
pub proof fn lemma_output_path_shape(input: Seq<char>, output_dir: Seq<char>)
    ensures
        file_name(output_path_for(input, output_dir)) == Some(
            stem_or_unknown(input) + OUTPUT_SUFFIX@ + seq!['.'] + extension_or_default(input),
        ),
        output_path_for(input, output_dir).take(output_dir.len() as int) == output_dir,
{
    reveal_strlit("-short");
    lemma_name_parts_plain(input);
    let stem = stem_or_unknown(input);
    let ext = extension_or_default(input);
    let name = output_file_name(input);
    assert(name == stem + OUTPUT_SUFFIX@ + seq!['.'] + ext);
    assert forall|k: int| 0 <= k < name.len() implies name[k] != '/' by {
        if k < stem.len() {
            assert(name[k] == stem[k]);
        } else if k < stem.len() + 6 {
            assert(name[k] == OUTPUT_SUFFIX@[k - stem.len()]);
        } else if k == stem.len() + 6 {
            assert(name[k] == '.');
        } else {
            assert(name[k] == ext[k - stem.len() - 7]);
        }
    }
    assert(name.len() >= 7);
    assert(name[0] != '/');
    assert(name.last() != '/');
    assert(name != seq!['.']);
    assert(name != seq!['.', '.']);
    let x: Seq<char> = if output_dir.len() == 0 {
        seq![]
    } else if output_dir.last() == '/' {
        output_dir
    } else {
        output_dir + seq!['/']
    };
    let path = output_path_for(input, output_dir);
    assert(path =~= x + name);
    assert(x.len() == 0 || x.last() == '/');
    lemma_name_start_after(x, name);
    assert(path.last() == name.last());
    assert(path[path.len() - 2] == name[name.len() - 2]);
    assert(trim_slashes(path) == path);
    assert(last_component(path) =~= name);
    assert(path.take(output_dir.len() as int) =~= output_dir);
}

} // verus!
