//! Compose integration for predefined services: reading the image a service
//! runs from its Compose file, the one-service override document, and the
//! `docker compose up` invocation that applies it.

use vstd::prelude::*;
use crate::domain::ComposeRuntime;
use crate::text::{
    drop_leading, drop_trailing, has_prefix, push_char, range_equals, range_has_prefix,
    skip_leading, skip_prefixes, skip_trailing, strip_prefixes, string_of_range, trim_kind,
    trim_range, trim_text, chars_of, signed_decimal_text, string_views, push_text,
};
use crate::update::RuntimeFailure;

verus! {

broadcast use vstd::string::group_string_axioms;

/// The Compose client that drives the local `docker compose` command line.
#[derive(Debug, Clone, Copy, PartialEq, Eq)]
pub struct ShellComposeClient;

/// Errors returned by Compose.
#[derive(Debug, PartialEq, Eq)]
pub enum ComposeError {
    /// The Compose file could not be read.
    Read { path: String, message: String },
    /// The Compose file does not describe the service as expected.
    Validation(String),
    /// `docker compose` could not be run.
    CommandIo(String),
    /// `docker compose` ran and failed.
    CommandFailed { command: String, exit_code: Option<i32>, stderr: String },
}

/// The text of an optional exit code, as `{:?}` renders it.
pub open spec fn exit_code_text(code: Option<i32>) -> Seq<char> {
    match code {
        Some(c) => "Some("@ + signed_decimal_text(c as int) + ")"@,
        None => "None"@,
    }
}


/// The text of a Compose error, as it is shown to operators.
pub open spec fn compose_error_text(e: ComposeError) -> Seq<char> {
    match e {
        ComposeError::Read { path, message } => "failed to read compose file `"@ + path@ + "`: "@
            + message@,
        ComposeError::Validation(m) => "invalid compose configuration: "@ + m@,
        ComposeError::CommandIo(m) => "failed to run docker compose: "@ + m@,
        ComposeError::CommandFailed { command, exit_code, stderr } => "docker compose command failed `"@
            + command@ + "` (exit: "@ + exit_code_text(exit_code) + "): "@ + stderr@,
    }
}

fn signed_string(n: i32) -> (s: String)
    ensures
        s@ == signed_decimal_text(n as int),
{
    if n < 0 {
        let magnitude: u64 = (0i64 - (n as i64)) as u64;
        let digits = crate::text::decimal_string(magnitude);
        let mut s = String::new();
        push_char(&mut s, '-');
        s.append(digits.as_str());
        assert(s@ =~= seq!['-'] + crate::text::decimal_text((-n) as nat));
        s
    } else {
        crate::text::decimal_string(n as u64)
    }
}

fn exit_code_string(code: Option<i32>) -> (s: String)
    ensures
        s@ == exit_code_text(code),
{
    match code {
        Some(c) => {
            let mut s = String::from_str("Some(");
            let digits = signed_string(c);
            s.append(digits.as_str());
            s.append(")");
            s
        },
        None => String::from_str("None"),
    }
}

impl ComposeError {
    /// Renders the error for operators.
    pub fn message(&self) -> (s: String)
        ensures
            s@ == compose_error_text(*self),
    {
        match self {
            ComposeError::Read { path, message } => {
                let mut s = String::from_str("failed to read compose file `");
                s.append(path.as_str());
                s.append("`: ");
                s.append(message.as_str());
                s
            },
            ComposeError::Validation(m) => {
                let mut s = String::from_str("invalid compose configuration: ");
                s.append(m.as_str());
                s
            },
            ComposeError::CommandIo(m) => {
                let mut s = String::from_str("failed to run docker compose: ");
                s.append(m.as_str());
                s
            },
            ComposeError::CommandFailed { command, exit_code, stderr } => {
                let mut s = String::from_str("docker compose command failed `");
                s.append(command.as_str());
                s.append("` (exit: ");
                let code = exit_code_string(*exit_code);
                s.append(code.as_str());
                s.append("): ");
                s.append(stderr.as_str());
                s
            },
        }
    }

    /// The failure the update workflow records for this error: its text,
    /// with no HTTP status.
    pub fn to_runtime_failure(&self) -> (f: RuntimeFailure)
        ensures
            f.message@ == compose_error_text(*self),
            f.status_code is None,
    {
        RuntimeFailure { message: self.message(), status_code: None }
    }
}

// ---------------------------------------------------------------------------
// Lines, as `str::lines` yields them.
// ---------------------------------------------------------------------------

/// A finished line: one carriage return before its newline is dropped.
pub open spec fn strip_cr(line: Seq<char>) -> Seq<char> {
    if line.len() > 0 && line.last() == '\r' {
        line.drop_last()
    } else {
        line
    }
}

/// The lines finished so far and the line in progress, after reading `s`.
pub open spec fn split_state(s: Seq<char>) -> (Seq<Seq<char>>, Seq<char>)
    decreases s.len(),
{
    if s.len() == 0 {
        (Seq::empty(), Seq::empty())
    } else {
        let (done, cur) = split_state(s.drop_last());
        if s.last() == '\n' {
            (done.push(strip_cr(cur)), Seq::empty())
        } else {
            (done, cur.push(s.last()))
        }
    }
}

/// The lines of a text: split at `\n` (and `\r\n`); a final line ending is optional.
pub open spec fn lines_of(s: Seq<char>) -> Seq<Seq<char>> {
    let (done, cur) = split_state(s);
    if cur.len() == 0 {
        done
    } else {
        done.push(cur)
    }
}

/// The characters of each line.
pub open spec fn line_views(v: Seq<Vec<char>>) -> Seq<Seq<char>> {
    v.map_values(|l: Vec<char>| l@)
}

/// Splits a text into lines.
pub fn split_lines(text: &str) -> (lines: Vec<Vec<char>>)
    ensures
        line_views(lines@) == lines_of(text@),
{
    let chars = chars_of(text);
    let mut done: Vec<Vec<char>> = Vec::new();
    let mut cur: Vec<char> = Vec::new();
    let mut i: usize = 0;
    while i < chars.len()
        invariant
            chars@ == text@,
            i <= chars.len(),
            (line_views(done@), cur@) == split_state(chars@.take(i as int)),
        decreases chars.len() - i,
    {
        let c = chars[i];
        proof {
            assert(chars@.take(i + 1).drop_last() =~= chars@.take(i as int));
        }
        let ghost before = done@;
        if c == '\n' {
            let n = cur.len();
            if n > 0 && cur[n - 1] == '\r' {
                cur.pop();
            }
            let finished = cur;
            let ghost fv = finished@;
            done.push(finished);
            assert(line_views(done@) =~= line_views(before).push(fv));
            cur = Vec::new();
        } else {
            cur.push(c);
        }
        i = i + 1;
    }
    assert(chars@.take(chars.len() as int) =~= chars@);
    if cur.len() > 0 {
        let ghost before = done@;
        let ghost cv = cur@;
        done.push(cur);
        assert(line_views(done@) =~= line_views(before).push(cv));
    }
    done
}

// ---------------------------------------------------------------------------
// Finding the image of a Compose service.
// ---------------------------------------------------------------------------

/// The number of spaces that begin a line.
pub open spec fn indent_of(line: Seq<char>) -> int {
    line.len() - drop_leading(line, Some(' ')).len()
}

/// The message when the service's `image:` line holds no value.
pub open spec fn missing_image_value_message(service: Seq<char>) -> Seq<char> {
    "compose service `"@ + service + "` is missing an image value"@
}

/// The message when the `services:` section names no image for the service.
pub open spec fn missing_image_field_message(service: Seq<char>) -> Seq<char> {
    "compose service `"@ + service + "` is missing an `image` field or does not exist"@
}

/// The message when the file has no `services:` section.
pub open spec fn missing_services_message() -> Seq<char> {
    "compose file is missing a `services:` section"@
}

/// The answer once the scan ends without finding the image line.
pub open spec fn scan_end(in_services: bool, service: Seq<char>) -> Result<Seq<char>, Seq<char>> {
    if in_services {
        Err(missing_image_field_message(service))
    } else {
        Err(missing_services_message())
    }
}

/// The image value of an `image:` line (already trimmed): every leading
/// `image:` removed, white space trimmed, then double and single quotes
/// trimmed from both ends.
pub open spec fn image_value(trimmed: Seq<char>) -> Seq<char> {
    trim_text(strip_prefixes(trimmed, "image:"@))
}

/// Scans the lines of a Compose file from line `i` for the `image:` of
/// `service`: blank and comment lines are skipped; lines before `services:`
/// are skipped; inside it, a line without indent ends the section, a line
/// indented by two that ends in `:` names the current service, and a line of
/// the current service indented by four or more that begins `image:` holds
/// the answer. `Ok` is the image, `Err` the validation message.
pub open spec fn scan_from(
    lines: Seq<Seq<char>>,
    i: int,
    in_services: bool,
    current: Option<Seq<char>>,
    service: Seq<char>,
) -> Result<Seq<char>, Seq<char>>
    decreases lines.len() - i,
{
    if i < 0 || i >= lines.len() {
        scan_end(in_services, service)
    } else {
        let line = lines[i];
        let t = trim_text(line);
        if t.len() == 0 || t[0] == '#' {
            scan_from(lines, i + 1, in_services, current, service)
        } else if !in_services {
            scan_from(lines, i + 1, t == "services:"@, current, service)
        } else if indent_of(line) == 0 {
            scan_end(true, service)
        } else if indent_of(line) == 2 && t.last() == ':' {
            scan_from(lines, i + 1, true, Some(drop_trailing(t, Some(':'))), service)
        } else if current == Some(service) && indent_of(line) >= 4 && has_prefix(t, "image:"@) {
            let image = image_value(t);
            if image.len() == 0 {
                Err(missing_image_value_message(service))
            } else {
                Ok(trim_kind(trim_kind(image, Some('"')), Some('\'')))
            }
        } else {
            scan_from(lines, i + 1, true, current, service)
        }
    }
}

/// The image a Compose file gives `service`, or the reason it gives none.
pub open spec fn service_image(raw: Seq<char>, service: Seq<char>) -> Result<Seq<char>, Seq<char>> {
    scan_from(lines_of(raw), 0, false, None, service)
}

/// Whether a line is a comment: its trimmed text begins with `#`.
pub open spec fn is_comment_line(line: Seq<char>) -> bool {
    trim_text(line).len() > 0 && trim_text(line)[0] == '#'
}

proof fn lemma_scan_after_inserted_comment(
    lines: Seq<Seq<char>>,
    k: int,
    c: Seq<char>,
    i: int,
    in_services: bool,
    current: Option<Seq<char>>,
    service: Seq<char>,
)
    requires
        0 <= k <= lines.len(),
        k <= i,
    ensures
        scan_from(lines.insert(k, c), i + 1, in_services, current, service) == scan_from(lines, i, in_services, current, service),
    decreases lines.len() - i,
{
    let l2 = lines.insert(k, c);
    if i < lines.len() {
        assert(l2[i + 1] == lines[i]);
        lemma_scan_after_inserted_comment(lines, k, c, i + 1, in_services, current, service);
        lemma_scan_after_inserted_comment(lines, k, c, i + 1, true, current, service);
        lemma_scan_after_inserted_comment(lines, k, c, i + 1, trim_text(lines[i]) == "services:"@, current, service);
        lemma_scan_after_inserted_comment(lines, k, c, i + 1, true, Some(drop_trailing(trim_text(lines[i]), Some(':'))), service);
    }
}

proof fn lemma_scan_before_inserted_comment(
    lines: Seq<Seq<char>>,
    k: int,
    c: Seq<char>,
    i: int,
    in_services: bool,
    current: Option<Seq<char>>,
    service: Seq<char>,
)
    requires
        0 <= k <= lines.len(),
        0 <= i <= k,
        is_comment_line(c),
    ensures
        scan_from(lines.insert(k, c), i, in_services, current, service) == scan_from(lines, i, in_services, current, service),
    decreases k - i,
{
    let l2 = lines.insert(k, c);
    if i == k {
        assert(l2[k] == c);
        lemma_scan_after_inserted_comment(lines, k, c, k, in_services, current, service);
    } else {
        assert(l2[i] == lines[i]);
        lemma_scan_before_inserted_comment(lines, k, c, i + 1, in_services, current, service);
        lemma_scan_before_inserted_comment(lines, k, c, i + 1, true, current, service);
        lemma_scan_before_inserted_comment(lines, k, c, i + 1, trim_text(lines[i]) == "services:"@, current, service);
        lemma_scan_before_inserted_comment(lines, k, c, i + 1, true, Some(drop_trailing(trim_text(lines[i]), Some(':'))), service);
    }
}

/// Comment lines do not matter: a Compose file's lines with a comment line
/// inserted anywhere give every service the same image, or the same reason
/// for having none, as the lines without it.
pub proof fn law_comment_line_changes_nothing(lines: Seq<Seq<char>>, k: int, c: Seq<char>, service: Seq<char>)
    requires
        0 <= k <= lines.len(),
        is_comment_line(c),
    ensures
        scan_from(lines.insert(k, c), 0, false, None, service) == scan_from(lines, 0, false, None, service),
{
    lemma_scan_before_inserted_comment(lines, k, c, 0, false, None, service);
}

proof fn lemma_split_state_without_newline(s: Seq<char>)
    requires
        !s.contains('\n'),
    ensures
        split_state(s) == (Seq::<Seq<char>>::empty(), s),
    decreases s.len(),
{
    if s.len() > 0 {
        assert(!s.drop_last().contains('\n')) by {
            if s.drop_last().contains('\n') {
                let j = choose|j: int| 0 <= j < s.drop_last().len() && s.drop_last()[j] == '\n';
                assert(s[j] == '\n');
            }
        }
        lemma_split_state_without_newline(s.drop_last());
        assert(s.last() != '\n') by { assert(s[s.len() - 1] == s.last()); }
        assert(s.drop_last().push(s.last()) =~= s);
    }
}

proof fn lemma_split_state_append(x: Seq<char>, y: Seq<char>)
    requires
        split_state(x).1.len() == 0,
    ensures
        split_state(x + y) == (split_state(x).0 + split_state(y).0, split_state(y).1),
    decreases y.len(),
{
    if y.len() == 0 {
        assert(x + y =~= x);
        assert(split_state(x).0 + Seq::<Seq<char>>::empty() =~= split_state(x).0);
    } else {
        assert((x + y).drop_last() =~= x + y.drop_last());
        assert((x + y).last() == y.last());
        lemma_split_state_append(x, y.drop_last());
        let (d, cur) = split_state(y.drop_last());
        if y.last() == '\n' {
            assert(split_state(x).0 + d.push(strip_cr(cur)) =~= (split_state(x).0 + d).push(strip_cr(cur)));
        }
    }
}

/// Comment lines do not matter in the text of a Compose file either: a
/// comment line (without line break) inserted at the start of any line gives
/// every service the same image, or the same reason for having none.
pub proof fn law_comment_text_changes_nothing(before: Seq<char>, c: Seq<char>, after: Seq<char>, service: Seq<char>)
    requires
        before.len() == 0 || before.last() == '\n',
        !c.contains('\n'),
        is_comment_line(strip_cr(c)),
    ensures
        service_image(before + c + seq!['\n'] + after, service) == service_image(before + after, service),
{
    assert(split_state(before).1.len() == 0) by {
        if before.len() > 0 {
            assert(before.drop_last().push(before.last()) =~= before);
        }
    }
    lemma_split_state_without_newline(c);
    let cn = c + seq!['\n'];
    assert(cn.drop_last() =~= c);
    assert(split_state(cn) == (seq![strip_cr(c)], Seq::<char>::empty()));
    lemma_split_state_append(before, cn);
    assert(split_state(before + cn).1.len() == 0);
    lemma_split_state_append(before + cn, after);
    lemma_split_state_append(before, after);
    let d = split_state(before).0;
    let rest = lines_of(after);
    assert(lines_of(before + after) =~= d + rest);
    assert(before + c + seq!['\n'] + after =~= (before + cn) + after);
    assert(lines_of(before + c + seq!['\n'] + after) =~= (d + rest).insert(d.len() as int, strip_cr(c)));
    law_comment_line_changes_nothing(d + rest, d.len() as int, strip_cr(c), service);
}

fn message_with_service(head: &str, service: &str, tail: &str) -> (s: String)
    ensures
        s@ == head@ + service@ + tail@,
{
    let mut s = String::from_str(head);
    s.append(service);
    s.append(tail);
    s
}

fn scan_end_error(in_services: bool, service: &str) -> (e: ComposeError)
    ensures
        e matches ComposeError::Validation(m) && scan_end(in_services, service@) == Err::<
            Seq<char>,
            Seq<char>,
        >(m@),
{
    if in_services {
        proof {
            reveal_strlit("compose service `");
            reveal_strlit("` is missing an `image` field or does not exist");
        }
        ComposeError::Validation(
            message_with_service(
                "compose service `",
                service,
                "` is missing an `image` field or does not exist",
            ),
        )
    } else {
        ComposeError::Validation(String::from_str("compose file is missing a `services:` section"))
    }
}

/// Finds the image a Compose file gives a service.
pub fn find_service_image(raw: &str, service_name: &str) -> (r: Result<String, ComposeError>)
    ensures
        match r {
            Ok(image) => service_image(raw@, service_name@) == Ok::<Seq<char>, Seq<char>>(image@),
            Err(e) => e matches ComposeError::Validation(m) && service_image(raw@, service_name@)
                == Err::<Seq<char>, Seq<char>>(m@),
        },
{
    let lines = split_lines(raw);
    let service = chars_of(service_name);
    let services_header = chars_of("services:");
    let image_key = chars_of("image:");
    proof {
        reveal_strlit("services:");
        reveal_strlit("image:");
    }
    let ghost all = line_views(lines@);
    let mut in_services = false;
    let mut current: Option<Vec<char>> = None;
    let mut i: usize = 0;
    while i < lines.len()
        invariant
            all == line_views(lines@),
            all == lines_of(raw@),
            all.len() == lines.len(),
            service@ == service_name@,
            services_header@ == "services:"@,
            image_key@ == "image:"@,
            image_key@.len() > 0,
            i <= lines.len(),
            scan_from(all, 0, false, None, service_name@) == scan_from(
                all,
                i as int,
                in_services,
                match current {
                    Some(c) => Some(c@),
                    None => None,
                },
                service_name@,
            ),
        decreases lines.len() - i,
    {
        let line = &lines[i];
        let ghost lv = line@;
        assert(all[i as int] == lv);
        assert(line@.subrange(0, line@.len() as int) =~= line@);
        let (a, b) = trim_range(line, 0, line.len(), None);
        let ghost t = line@.subrange(a as int, b as int);
        assert(t == trim_text(lv));
        assert(a < b ==> t[0] == line@[a as int]);
        if a == b || line[a] == '#' {
            i = i + 1;
        } else if !in_services {
            in_services = range_equals(line, a, b, &services_header);
            i = i + 1;
        } else {
            let rest = skip_leading(line, 0, line.len(), Some(' '));
            let indent = rest;
            assert(indent_of(lv) == indent);
            if indent == 0 {
                assert(scan_from(all, i as int, in_services, match current {
                    Some(c) => Some(c@),
                    None => None,
                }, service_name@) == scan_end(true, service_name@));
                return Err(scan_end_error(true, service_name));
            } else if indent == 2 && line[b - 1] == ':' {
                let name_end = skip_trailing(line, a, b, Some(':'));
                let name = string_of_range_vec(line, a, name_end);
                current = Some(name);
                i = i + 1;
            } else {
                let is_current = match &current {
                    Some(c) => {
                        let r = range_equals(c, 0, c.len(), &service);
                        assert(c@.subrange(0, c@.len() as int) =~= c@);
                        r
                    },
                    None => false,
                };
                if is_current && indent >= 4 && range_has_prefix(line, a, b, &image_key) {
                    let after_key = skip_prefixes(line, a, b, &image_key);
                    proof {
                        assert(line@.subrange(after_key as int, b as int) == strip_prefixes(t, "image:"@));
                    }
                    let (c, d) = trim_range(line, after_key, b, None);
                    if c == d {
                        proof {
                            reveal_strlit("compose service `");
                            reveal_strlit("` is missing an image value");
                        }
                        return Err(
                            ComposeError::Validation(
                                message_with_service(
                                    "compose service `",
                                    service_name,
                                    "` is missing an image value",
                                ),
                            ),
                        );
                    }
                    let (e, f) = trim_range(line, c, d, Some('"'));
                    let (g, h) = trim_range(line, e, f, Some('\''));
                    return Ok(string_of_range(line, g, h));
                }
                i = i + 1;
            }
        }
    }
    Err(scan_end_error(in_services, service_name))
}

fn string_of_range_vec(v: &Vec<char>, from: usize, to: usize) -> (r: Vec<char>)
    requires
        from <= to <= v.len(),
    ensures
        r@ == v@.subrange(from as int, to as int),
{
    let mut r: Vec<char> = Vec::new();
    let mut i = from;
    while i < to
        invariant
            from <= i <= to <= v.len(),
            r@ == v@.subrange(from as int, i as int),
        decreases to - i,
    {
        r.push(v[i]);
        assert(v@.subrange(from as int, i as int).push(v@[i as int]) =~= v@.subrange(
            from as int,
            i + 1,
        ));
        i = i + 1;
    }
    r
}


// ---------------------------------------------------------------------------
// Applying an image: the override document and the `docker compose` call.
// ---------------------------------------------------------------------------

/// `s` with every single quote doubled, as YAML single-quoted scalars need.
pub open spec fn escape_single_quotes(s: Seq<char>) -> Seq<char>
    decreases s.len(),
{
    if s.len() == 0 {
        Seq::empty()
    } else {
        escape_single_quotes(s.drop_last()) + if s.last() == '\'' {
            seq!['\'', '\'']
        } else {
            seq![s.last()]
        }
    }
}

/// The one-service override document that sets the service's image.
pub open spec fn override_text(service: Seq<char>, image: Seq<char>) -> Seq<char> {
    "services:\n  "@ + service + ":\n    image: '"@ + escape_single_quotes(image) + "'\n"@
}

fn escaped(image: &str) -> (s: String)
    ensures
        s@ == escape_single_quotes(image@),
{
    let chars = chars_of(image);
    let mut s = String::new();
    let mut i: usize = 0;
    while i < chars.len()
        invariant
            chars@ == image@,
            i <= chars.len(),
            s@ == escape_single_quotes(chars@.take(i as int)),
        decreases chars.len() - i,
    {
        let c = chars[i];
        proof {
            assert(chars@.take(i + 1).drop_last() =~= chars@.take(i as int));
        }
        let ghost before = s@;
        push_char(&mut s, c);
        if c == '\'' {
            push_char(&mut s, '\'');
            assert(s@ =~= before + seq!['\'', '\'']);
        } else {
            assert(s@ =~= before + seq![c]);
        }
        i = i + 1;
    }
    assert(chars@.take(chars.len() as int) =~= chars@);
    s
}

/// Renders the override document for a service and image.
pub fn override_document(runtime: &ComposeRuntime, image_reference: &str) -> (s: String)
    ensures
        s@ == override_text(runtime.service@, image_reference@),
{
    let mut s = String::from_str("services:\n  ");
    s.append(runtime.service.as_str());
    s.append(":\n    image: '");
    let e = escaped(image_reference);
    s.append(e.as_str());
    s.append("'\n");
    s
}

/// The arguments given to `docker` to apply an override.
pub open spec fn compose_up_arg_texts(runtime: ComposeRuntime, override_path: Seq<char>) -> Seq<Seq<char>> {
    seq![
        "compose"@,
        "-p"@,
        runtime.project@,
        "-f"@,
        runtime.file@,
        "-f"@,
        override_path,
        "up"@,
        "-d"@,
        runtime.service@,
    ]
}

/// Builds the arguments of `docker compose -p {project} -f {file} -f {override} up -d {service}`.
pub fn compose_up_args(runtime: &ComposeRuntime, override_path: &str) -> (args: Vec<String>)
    ensures
        string_views(args@) == compose_up_arg_texts(*runtime, override_path@),
{
    let mut args: Vec<String> = Vec::new();
    push_text(&mut args, String::from_str("compose"));
    push_text(&mut args, String::from_str("-p"));
    push_text(&mut args, runtime.project.clone());
    push_text(&mut args, String::from_str("-f"));
    push_text(&mut args, runtime.file.clone());
    push_text(&mut args, String::from_str("-f"));
    push_text(&mut args, String::from_str(override_path));
    push_text(&mut args, String::from_str("up"));
    push_text(&mut args, String::from_str("-d"));
    push_text(&mut args, runtime.service.clone());
    assert(string_views(args@) =~= compose_up_arg_texts(*runtime, override_path@));
    args
}

/// The command line shown when `docker compose up` fails.
pub open spec fn compose_up_command_text(runtime: ComposeRuntime, override_path: Seq<char>) -> Seq<char> {
    "docker compose -p "@ + runtime.project@ + " -f "@ + runtime.file@ + " -f "@ + override_path
        + " up -d "@ + runtime.service@
}

/// The error for a `docker compose up` that exited unsuccessfully: the
/// command line, the exit code and the trimmed standard error.
pub fn compose_up_failed(
    runtime: &ComposeRuntime,
    override_path: &str,
    exit_code: Option<i32>,
    stderr: &str,
) -> (e: ComposeError)
    ensures
        e matches ComposeError::CommandFailed { command, exit_code: code, stderr: err } && command@
            == compose_up_command_text(*runtime, override_path@) && code == exit_code && err@
            == trim_text(stderr@),
{
    let mut command = String::from_str("docker compose -p ");
    command.append(runtime.project.as_str());
    command.append(" -f ");
    command.append(runtime.file.as_str());
    command.append(" -f ");
    command.append(override_path);
    command.append(" up -d ");
    command.append(runtime.service.as_str());
    let chars = chars_of(stderr);
    assert(chars@.subrange(0, chars@.len() as int) =~= chars@);
    let (a, b) = trim_range(&chars, 0, chars.len(), None);
    let err = string_of_range(&chars, a, b);
    ComposeError::CommandFailed { command, exit_code, stderr: err }
}

/// The label filters that pick out the containers of a Compose service.
pub open spec fn compose_label_texts(project: Seq<char>, service: Seq<char>) -> Seq<Seq<char>> {
    seq!["com.docker.compose.project="@ + project, "com.docker.compose.service="@ + service]
}

/// Builds the `key=value` label filters for a Compose service's containers.
pub fn compose_service_labels(project: &str, service: &str) -> (labels: Vec<String>)
    ensures
        string_views(labels@) == compose_label_texts(project@, service@),
{
    let mut labels: Vec<String> = Vec::new();
    let mut p = String::from_str("com.docker.compose.project=");
    p.append(project);
    push_text(&mut labels, p);
    let mut s = String::from_str("com.docker.compose.service=");
    s.append(service);
    push_text(&mut labels, s);
    assert(string_views(labels@) =~= compose_label_texts(project@, service@));
    labels
}

} // verus!
