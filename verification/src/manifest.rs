use vstd::prelude::*;

use crate::text::str_starts_with;

verus! {

/// The resolved choice between a published version and a local checkout
/// path, used to drive the nested-manifest rewrite.
pub enum VersionSpec {
    /// A resolved published version identifier.
    Fixed(String),
    /// A filesystem path to a local checkout of the dependency.
    Path(String),
}

/// No character of `s` is a newline.
pub open spec fn newline_free(s: Seq<char>) -> bool {
    forall|i: int| 0 <= i < s.len() ==> s[i] != '\n'
}

/// The payload of a version spec stays on one line, so that splicing it
/// into a manifest line cannot introduce new lines.
pub open spec fn version_spec_wf(vs: &VersionSpec) -> bool {
    match vs {
        VersionSpec::Fixed(v) => newline_free(v@),
        VersionSpec::Path(p) => newline_free(p@),
    }
}

/// The lines of `s`, split on newline characters. There is always at
/// least one line, and no line contains a newline.
pub open spec fn lines_of(s: Seq<char>) -> Seq<Seq<char>>
    decreases s.len(),
{
    if s.len() == 0 {
        seq![Seq::<char>::empty()]
    } else if s[0] == '\n' {
        seq![Seq::<char>::empty()] + lines_of(s.drop_first())
    } else {
        let rest = lines_of(s.drop_first());
        seq![seq![s[0]] + rest[0]] + rest.drop_first()
    }
}

/// The given lines joined back together with single newline characters.
pub open spec fn join_lines(ls: Seq<Seq<char>>) -> Seq<char>
    decreases ls.len(),
{
    if ls.len() == 0 {
        Seq::empty()
    } else if ls.len() == 1 {
        ls[0]
    } else {
        ls[0] + seq!['\n'] + join_lines(ls.drop_first())
    }
}

/// Splitting never loses content: a newline-free sequence is one line.
proof fn lemma_lines_of_newline_free(s: Seq<char>)
    requires
        newline_free(s),
    ensures
        lines_of(s) == seq![s],
    decreases s.len(),
{
    if s.len() == 0 {
        assert(lines_of(s) =~~= seq![s]);
    } else {
        lemma_lines_of_newline_free(s.drop_first());
        assert(seq![s[0]] + s.drop_first() =~= s);
        assert(lines_of(s) =~~= seq![s]);
    }
}

/// Splitting a sequence that opens with a newline-free line, a newline,
/// and a remainder yields that line followed by the remainder's lines.
proof fn lemma_lines_of_split(a: Seq<char>, b: Seq<char>)
    requires
        newline_free(a),
    ensures
        lines_of(a + seq!['\n'] + b) == seq![a] + lines_of(b),
    decreases a.len(),
{
    let s = a + seq!['\n'] + b;
    if a.len() == 0 {
        assert(s[0] == '\n');
        assert(s.drop_first() =~= b);
        assert(lines_of(s) =~~= seq![a] + lines_of(b));
    } else {
        lemma_lines_of_split(a.drop_first(), b);
        assert(s[0] == a[0]);
        assert(s[0] != '\n');
        assert(s.drop_first() =~= a.drop_first() + seq!['\n'] + b);
        let rest = lines_of(s.drop_first());
        assert(rest == seq![a.drop_first()] + lines_of(b));
        assert(rest[0] == a.drop_first());
        assert(seq![s[0]] + rest[0] =~= a);
        assert(rest.drop_first() =~= lines_of(b));
        assert(lines_of(s) =~~= seq![a] + lines_of(b));
    }
}

/// Every line that splitting produces is newline-free, and there is
/// always at least one line.
proof fn lemma_lines_of_wf(s: Seq<char>)
    ensures
        lines_of(s).len() > 0,
        forall|i: int|
            0 <= i < lines_of(s).len() ==> newline_free(#[trigger] lines_of(s)[i]),
    decreases s.len(),
{
    if s.len() == 0 {
    } else if s[0] == '\n' {
        lemma_lines_of_wf(s.drop_first());
    } else {
        lemma_lines_of_wf(s.drop_first());
        let rest = lines_of(s.drop_first());
        assert forall|i: int|
            0 <= i < lines_of(s).len() implies newline_free(#[trigger] lines_of(s)[i]) by {
            if i == 0 {
                assert(newline_free(rest[0]));
                assert forall|j: int|
                    0 <= j < (seq![s[0]] + rest[0]).len() implies (seq![s[0]] + rest[0])[j]
                    != '\n' by {
                    if j > 0 {
                        assert((seq![s[0]] + rest[0])[j] == rest[0][j - 1]);
                    }
                }
            } else {
                assert(lines_of(s)[i] == rest[i]);
            }
        }
    }
}

/// Joining newline-free lines and splitting the result gives the lines back.
proof fn lemma_lines_of_join(ls: Seq<Seq<char>>)
    requires
        ls.len() > 0,
        forall|i: int| 0 <= i < ls.len() ==> newline_free(#[trigger] ls[i]),
    ensures
        lines_of(join_lines(ls)) == ls,
    decreases ls.len(),
{
    if ls.len() == 1 {
        lemma_lines_of_newline_free(ls[0]);
        assert(lines_of(join_lines(ls)) =~~= ls);
    } else {
        lemma_lines_of_join(ls.drop_first());
        lemma_lines_of_split(ls[0], join_lines(ls.drop_first()));
        assert(lines_of(join_lines(ls)) =~~= ls);
    }
}

/// Appending one more line to a join adds a newline separator and the line.
proof fn lemma_join_lines_push(ls: Seq<Seq<char>>, x: Seq<char>)
    requires
        ls.len() >= 1,
    ensures
        join_lines(ls.push(x)) == join_lines(ls) + seq!['\n'] + x,
    decreases ls.len(),
{
    if ls.len() == 1 {
        assert(ls.push(x).drop_first() =~= seq![x]);
        assert(join_lines(seq![x]) == x);
        assert(join_lines(ls.push(x)) =~= ls[0] + seq!['\n'] + x);
    } else {
        lemma_join_lines_push(ls.drop_first(), x);
        assert(ls.push(x).drop_first() =~= ls.drop_first().push(x));
        assert(join_lines(ls.push(x)) =~= join_lines(ls) + seq!['\n'] + x);
    }
}

/// The lines of `content`, each as an owned string.
fn split_lines(content: &str) -> (r: Vec<String>)
    ensures
        r.deep_view() == lines_of(content@),
        r.len() > 0,
{
    let n = content.unicode_len();
    let mut done: Vec<String> = Vec::new();
    let mut start: usize = 0;
    let mut i: usize = 0;
    proof {
        assert(content@.skip(0) =~= content@);
    }
    while i < n
        invariant
            start <= i <= n,
            n == content@.len(),
            forall|k: int| start <= k < i ==> content@[k] != '\n',
            lines_of(content@) == done.deep_view() + lines_of(content@.skip(start as int)),
        decreases n - i,
    {
        if content.get_char(i) == '\n' {
            let line = String::from_str(content.substring_char(start, i));
            let ghost prev = done.deep_view();
            done.push(line);
            proof {
                let piece = content@.subrange(start as int, i as int);
                assert(newline_free(piece));
                lemma_lines_of_split(piece, content@.skip(i + 1));
                assert(content@.skip(start as int) =~= piece + seq!['\n'] + content@.skip(
                    i + 1,
                ));
                assert(done.deep_view() =~~= prev + seq![piece]);
                assert(lines_of(content@) =~~= done.deep_view() + lines_of(
                    content@.skip(i + 1),
                ));
            }
            start = i + 1;
        }
        i += 1;
    }
    let line = String::from_str(content.substring_char(start, n));
    let ghost prev = done.deep_view();
    done.push(line);
    proof {
        let piece = content@.subrange(start as int, n as int);
        assert(newline_free(piece));
        lemma_lines_of_newline_free(piece);
        assert(content@.skip(start as int) =~= piece);
        assert(done.deep_view() =~~= prev + seq![piece]);
        assert(lines_of(content@) =~~= done.deep_view());
    }
    done
}

/// The given lines joined with single newline characters.
fn join_strings(ls: &Vec<String>) -> (r: String)
    requires
        ls.len() > 0,
    ensures
        r@ == join_lines(ls.deep_view()),
{
    let mut out = String::new();
    out.append(ls[0].as_str());
    let mut j: usize = 1;
    proof {
        assert(ls.deep_view().take(1) =~= seq![ls.deep_view()[0]]);
    }
    while j < ls.len()
        invariant
            1 <= j <= ls.len(),
            ls.deep_view().len() == ls.len(),
            out@ == join_lines(ls.deep_view().take(j as int)),
        decreases ls.len() - j,
    {
        out.append("\n");
        out.append(ls[j].as_str());
        proof {
            reveal_strlit("\n");
            assert("\n"@ =~= seq!['\n']);
            let dv = ls.deep_view();
            lemma_join_lines_push(dv.take(j as int), dv[j as int]);
            assert(dv.take(j as int).push(dv[j as int]) =~= dv.take(j + 1));
            assert(out@ =~= join_lines(dv.take(j + 1)));
        }
        j += 1;
    }
    proof {
        assert(ls.deep_view().take(ls.len() as int) =~= ls.deep_view());
    }
    out
}

/// The declaration key that opens the dependency's primary manifest line.
pub open spec fn codegen_key() -> Seq<char> {
    "cranelift-codegen ="@
}

/// The declaration key that opens the companion manifest line.
pub open spec fn wasm_key() -> Seq<char> {
    "cranelift-wasm"@
}

/// The `version = "..."` or `path = "...<sub>"` fragment spliced into a
/// rewritten declaration line; `sub` is the subcrate directory name.
pub open spec fn version_fragment(vs: &VersionSpec, sub: Seq<char>) -> Seq<char> {
    match vs {
        VersionSpec::Fixed(v) => "version = \""@ + v@ + "\""@,
        VersionSpec::Path(p) => "path = \""@ + p@ + sub + "\""@,
    }
}

/// The full replacement for the primary declaration line, which keeps the
/// trailing attribute disabling default features.
pub open spec fn codegen_line(vs: &VersionSpec) -> Seq<char> {
    "cranelift-codegen = { "@ + version_fragment(vs, "codegen"@) + ", default-features = false }"@
}

/// The full replacement for the companion declaration line.
pub open spec fn wasm_line(vs: &VersionSpec) -> Seq<char> {
    "cranelift-wasm = { "@ + version_fragment(vs, "wasm"@) + " }"@
}

/// The per-line rewrite rule of the nested dependency manifest: a line
/// opening with a declaration key is replaced; every other line passes
/// through unchanged. The rule reads nothing but the line itself.
pub open spec fn nested_line_rewrite(line: Seq<char>, vs: &VersionSpec) -> Seq<char> {
    if codegen_key().is_prefix_of(line) {
        codegen_line(vs)
    } else if wasm_key().is_prefix_of(line) {
        wasm_line(vs)
    } else {
        line
    }
}

/// The per-line rule applied to every line.
pub open spec fn rewritten_lines(ls: Seq<Seq<char>>, vs: &VersionSpec) -> Seq<Seq<char>> {
    Seq::new(ls.len(), |i: int| nested_line_rewrite(ls[i], vs))
}

/// The whole-content rewrite of the nested dependency manifest.
pub open spec fn rewrite_nested(content: Seq<char>, vs: &VersionSpec) -> Seq<char> {
    join_lines(rewritten_lines(lines_of(content), vs))
}

/// Appends [`version_fragment`] to `out`.
fn append_version_fragment(out: &mut String, vs: &VersionSpec, sub: &str)
    ensures
        final(out)@ == old(out)@ + version_fragment(vs, sub@),
{
    match vs {
        VersionSpec::Fixed(v) => {
            out.append("version = \"");
            out.append(v.as_str());
            out.append("\"");
            proof {
                assert(final(out)@ =~= old(out)@ + version_fragment(vs, sub@));
            }
        },
        VersionSpec::Path(p) => {
            out.append("path = \"");
            out.append(p.as_str());
            out.append(sub);
            out.append("\"");
            proof {
                assert(final(out)@ =~= old(out)@ + version_fragment(vs, sub@));
            }
        },
    }
}

/// Applies [`nested_line_rewrite`] to one line.
fn rewrite_nested_line(line: &str, vs: &VersionSpec) -> (r: String)
    ensures
        r@ == nested_line_rewrite(line@, vs),
{
    if str_starts_with(line, "cranelift-codegen =") {
        let mut out = String::from_str("cranelift-codegen = { ");
        append_version_fragment(&mut out, vs, "codegen");
        out.append(", default-features = false }");
        proof {
            assert(out@ =~= codegen_line(vs));
        }
        out
    } else if str_starts_with(line, "cranelift-wasm") {
        let mut out = String::from_str("cranelift-wasm = { ");
        append_version_fragment(&mut out, vs, "wasm");
        out.append(" }");
        proof {
            assert(out@ =~= wasm_line(vs));
        }
        out
    } else {
        String::from_str(line)
    }
}

/// Rewrites the nested dependency manifest: every line that opens with a
/// declaration key is replaced with an inline declaration carrying the
/// given version spec, and every other line is kept byte for byte.
pub fn replace_cranelift_version(content: &str, version: &VersionSpec) -> (r: String)
    ensures
        r@ == rewrite_nested(content@, version),
{
    let lines = split_lines(content);
    let mut out_lines: Vec<String> = Vec::new();
    let mut j: usize = 0;
    while j < lines.len()
        invariant
            j <= lines.len(),
            lines.deep_view().len() == lines.len(),
            out_lines.deep_view() == rewritten_lines(lines.deep_view(), version).take(j as int),
        decreases lines.len() - j,
    {
        let rewritten = rewrite_nested_line(lines[j].as_str(), version);
        let ghost prev = out_lines.deep_view();
        out_lines.push(rewritten);
        proof {
            let mapped = rewritten_lines(lines.deep_view(), version);
            assert(out_lines.deep_view() =~~= prev.push(rewritten@));
            assert(out_lines.deep_view() =~~= mapped.take(j + 1));
        }
        j += 1;
    }
    proof {
        assert(rewritten_lines(lines.deep_view(), version).take(lines.len() as int)
            =~= rewritten_lines(lines.deep_view(), version));
    }
    join_strings(&out_lines)
}

/// The nested dependency manifest's fixed location under a repository;
/// the repository path must already carry its trailing slash.
pub fn nested_manifest_path(repo_dir: &str) -> (r: String)
    ensures
        r@ == repo_dir@ + "js/src/wasm/cranelift/Cargo.toml"@,
{
    let mut s = String::from_str(repo_dir);
    s.append("js/src/wasm/cranelift/Cargo.toml");
    s
}

/// The top-level pin manifest's location at a repository's root; the
/// repository path must already carry its trailing slash.
pub fn toplevel_manifest_path(repo_dir: &str) -> (r: String)
    ensures
        r@ == repo_dir@ + "Cargo.toml"@,
{
    let mut s = String::from_str(repo_dir);
    s.append("Cargo.toml");
    s
}

/// Transient state of the top-level manifest scan: either idle, or
/// counting the lines left until the pin field line is reached.
#[derive(Clone, Copy, PartialEq, Eq, Structural, Debug)]
pub enum PatchState {
    Idle,
    CountingDown(u8),
}

/// The section header prefix that announces the dependency's override
/// section in the top-level manifest.
pub open spec fn header_key() -> Seq<char> {
    "[patch.crates-io.cranelift-"@
}

/// The replacement pin field line carrying the new commit identifier.
pub open spec fn rev_line(sha: Seq<char>) -> Seq<char> {
    "rev = \""@ + sha + "\""@
}

/// One step of the positional scan. The countdown armed by an earlier
/// header decides whether this line is replaced wholesale; seeing the
/// header (re)arms the countdown at two, because the pin field sits
/// exactly two lines after the header by manifest convention.
pub open spec fn patch_step(st: PatchState, line: Seq<char>, sha: Seq<char>) -> (PatchState, Seq<
    char,
>) {
    let counted = match st {
        PatchState::CountingDown(n) => if n > 0 {
            PatchState::CountingDown((n - 1) as u8)
        } else {
            PatchState::Idle
        },
        PatchState::Idle => PatchState::Idle,
    };
    let out = if counted == PatchState::CountingDown(0) {
        rev_line(sha)
    } else {
        line
    };
    let next = if header_key().is_prefix_of(line) {
        PatchState::CountingDown(2)
    } else {
        counted
    };
    (next, out)
}

/// The scan run over all lines from the given state.
pub open spec fn patched_lines_from(ls: Seq<Seq<char>>, st: PatchState, sha: Seq<char>) -> Seq<
    Seq<char>,
>
    decreases ls.len(),
{
    if ls.len() == 0 {
        Seq::empty()
    } else {
        let step = patch_step(st, ls[0], sha);
        seq![step.1] + patched_lines_from(ls.drop_first(), step.0, sha)
    }
}

/// The scan run over all lines, starting idle.
pub open spec fn patched_lines(ls: Seq<Seq<char>>, sha: Seq<char>) -> Seq<Seq<char>> {
    patched_lines_from(ls, PatchState::Idle, sha)
}

/// The whole-content rewrite of the top-level pin manifest.
pub open spec fn rewrite_top(content: Seq<char>, sha: Seq<char>) -> Seq<char> {
    join_lines(patched_lines(lines_of(content), sha))
}

/// Rewrites the top-level manifest: a single forward scan that replaces
/// the line sitting two lines after the dependency's override-section
/// header with a pin field set to `sha`, and keeps every other line.
pub fn replace_commit_sha(content: &str, sha: &str) -> (r: String)
    ensures
        r@ == rewrite_top(content@, sha@),
{
    let lines = split_lines(content);
    let ghost all = lines.deep_view();
    let mut out_lines: Vec<String> = Vec::new();
    let mut st = PatchState::Idle;
    let mut j: usize = 0;
    proof {
        assert(all.skip(0) =~= all);
        assert(out_lines.deep_view() =~~= Seq::<Seq<char>>::empty());
    }
    while j < lines.len()
        invariant
            j <= lines.len(),
            all == lines.deep_view(),
            all.len() == lines.len(),
            patched_lines(all, sha@) == out_lines.deep_view() + patched_lines_from(
                all.skip(j as int),
                st,
                sha@,
            ),
        decreases lines.len() - j,
    {
        let counted = match st {
            PatchState::CountingDown(n) => if n > 0 {
                PatchState::CountingDown(n - 1)
            } else {
                PatchState::Idle
            },
            PatchState::Idle => PatchState::Idle,
        };
        let replace_now = match counted {
            PatchState::CountingDown(n) => n == 0,
            PatchState::Idle => false,
        };
        let out_line = if replace_now {
            let mut o = String::from_str("rev = \"");
            o.append(sha);
            o.append("\"");
            proof {
                assert(o@ =~= rev_line(sha@));
            }
            o
        } else {
            String::from_str(lines[j].as_str())
        };
        let next = if str_starts_with(lines[j].as_str(), "[patch.crates-io.cranelift-") {
            PatchState::CountingDown(2)
        } else {
            counted
        };
        proof {
            let step = patch_step(st, all[j as int], sha@);
            assert(out_line@ == step.1);
            assert(next == step.0);
        }
        let ghost prev = out_lines.deep_view();
        out_lines.push(out_line);
        proof {
            let step = patch_step(st, all[j as int], sha@);
            assert(all.skip(j as int)[0] == all[j as int]);
            assert(all.skip(j as int).drop_first() =~= all.skip(j + 1));
            assert(out_lines.deep_view() =~~= prev.push(step.1));
            assert(patched_lines(all, sha@) =~~= out_lines.deep_view() + patched_lines_from(
                all.skip(j + 1),
                next,
                sha@,
            ));
        }
        st = next;
        j += 1;
    }
    proof {
        assert(all.skip(lines.len() as int) =~= Seq::<Seq<char>>::empty());
        assert(patched_lines(all, sha@) =~~= out_lines.deep_view());
    }
    join_strings(&out_lines)
}

/// Concatenation preserves newline-freeness.
proof fn lemma_newline_free_concat(a: Seq<char>, b: Seq<char>)
    requires
        newline_free(a),
        newline_free(b),
    ensures
        newline_free(a + b),
{
    assert forall|i: int| 0 <= i < (a + b).len() implies (a + b)[i] != '\n' by {
        if i >= a.len() {
            assert((a + b)[i] == b[i - a.len()]);
        }
    }
}

/// A rewritten line is newline-free whenever the line and the version
/// spec payload are.
proof fn lemma_line_rewrite_newline_free(line: Seq<char>, vs: &VersionSpec)
    requires
        newline_free(line),
        version_spec_wf(vs),
    ensures
        newline_free(nested_line_rewrite(line, vs)),
{
    reveal_strlit("cranelift-codegen = { ");
    reveal_strlit(", default-features = false }");
    reveal_strlit("cranelift-wasm = { ");
    reveal_strlit(" }");
    reveal_strlit("version = \"");
    reveal_strlit("path = \"");
    reveal_strlit("\"");
    reveal_strlit("codegen");
    reveal_strlit("wasm");
    assert(newline_free("cranelift-codegen = { "@));
    assert(newline_free(", default-features = false }"@));
    assert(newline_free("cranelift-wasm = { "@));
    assert(newline_free(" }"@));
    assert(newline_free("version = \""@));
    assert(newline_free("path = \""@));
    assert(newline_free("\""@));
    assert(newline_free("codegen"@));
    assert(newline_free("wasm"@));
    match vs {
        VersionSpec::Fixed(v) => {
            lemma_newline_free_concat("version = \""@, v@);
            lemma_newline_free_concat("version = \""@ + v@, "\""@);
        },
        VersionSpec::Path(p) => {
            lemma_newline_free_concat("path = \""@, p@);
            lemma_newline_free_concat("path = \""@ + p@, "codegen"@);
            lemma_newline_free_concat("path = \""@ + p@ + "codegen"@, "\""@);
            lemma_newline_free_concat("path = \""@ + p@, "wasm"@);
            lemma_newline_free_concat("path = \""@ + p@ + "wasm"@, "\""@);
        },
    }
    lemma_newline_free_concat("cranelift-codegen = { "@, version_fragment(vs, "codegen"@));
    lemma_newline_free_concat(
        "cranelift-codegen = { "@ + version_fragment(vs, "codegen"@),
        ", default-features = false }"@,
    );
    lemma_newline_free_concat("cranelift-wasm = { "@, version_fragment(vs, "wasm"@));
    lemma_newline_free_concat("cranelift-wasm = { "@ + version_fragment(vs, "wasm"@), " }"@);
}

/// The per-line rule is idempotent: a replacement line opens with the key
/// that triggered it, so rewriting it again reproduces it.
proof fn lemma_line_rewrite_idempotent(line: Seq<char>, vs: &VersionSpec)
    ensures
        nested_line_rewrite(nested_line_rewrite(line, vs), vs) == nested_line_rewrite(line, vs),
{
    reveal_strlit("cranelift-codegen =");
    reveal_strlit("cranelift-codegen = { ");
    reveal_strlit("cranelift-wasm");
    reveal_strlit("cranelift-wasm = { ");
    if codegen_key().is_prefix_of(line) {
        assert(codegen_key().is_prefix_of(codegen_line(vs))) by {
            assert(codegen_key() =~= codegen_line(vs).subrange(0, codegen_key().len() as int));
        }
    } else if wasm_key().is_prefix_of(line) {
        assert(!codegen_key().is_prefix_of(wasm_line(vs))) by {
            assert(wasm_line(vs)[10] == "cranelift-wasm = { "@[10]);
            assert("cranelift-wasm = { "@[10] == 'w');
            assert(codegen_key()[10] == 'c');
            if codegen_key().is_prefix_of(wasm_line(vs)) {
                assert(codegen_key()[10] == wasm_line(vs).subrange(
                    0,
                    codegen_key().len() as int,
                )[10]);
            }
        }
        assert(wasm_key().is_prefix_of(wasm_line(vs))) by {
            assert(wasm_key() =~= wasm_line(vs).subrange(0, wasm_key().len() as int));
        }
    }
}

/// The scan neither adds nor removes lines.
proof fn lemma_patched_lines_from_len(ls: Seq<Seq<char>>, st: PatchState, sha: Seq<char>)
    ensures
        patched_lines_from(ls, st, sha).len() == ls.len(),
    decreases ls.len(),
{
    if ls.len() > 0 {
        let step = patch_step(st, ls[0], sha);
        lemma_patched_lines_from_len(ls.drop_first(), step.0, sha);
    }
}

/// With no header in sight and no countdown pending, the scan is the
/// identity.
proof fn lemma_patched_lines_from_identity(ls: Seq<Seq<char>>, st: PatchState, sha: Seq<char>)
    requires
        st == PatchState::Idle || st == PatchState::CountingDown(0u8),
        forall|i: int| 0 <= i < ls.len() ==> !header_key().is_prefix_of(#[trigger] ls[i]),
    ensures
        patched_lines_from(ls, st, sha) == ls,
    decreases ls.len(),
{
    if ls.len() == 0 {
        assert(patched_lines_from(ls, st, sha) =~= ls);
    } else {
        let step = patch_step(st, ls[0], sha);
        assert(step.0 == PatchState::Idle);
        assert(step.1 == ls[0]);
        lemma_patched_lines_from_identity(ls.drop_first(), step.0, sha);
        assert(patched_lines_from(ls, st, sha) =~= ls);
    }
}

/// The top-level rewrite replaces exactly one line: when a single line
/// opens with the override-section header, the line exactly two after it
/// becomes the pin field line, and every other line of the output is
/// identical to its input line, whatever those lines contain.
pub proof fn lemma_top_rewrite_replaces_one_line(ls: Seq<Seq<char>>, sha: Seq<char>, h: int)
    requires
        0 <= h,
        h + 2 < ls.len(),
        header_key().is_prefix_of(ls[h]),
        forall|i: int| 0 <= i < ls.len() && i != h ==> !header_key().is_prefix_of(
            #[trigger] ls[i],
        ),
    ensures
        patched_lines(ls, sha).len() == ls.len(),
        patched_lines(ls, sha)[h + 2] == rev_line(sha),
        forall|i: int| 0 <= i < ls.len() && i != h + 2 ==> #[trigger] patched_lines(ls, sha)[i]
            == ls[i],
    decreases h,
{
    lemma_patched_lines_from_len(ls, PatchState::Idle, sha);
    if h == 0 {
        let ls1 = ls.drop_first();
        let ls2 = ls1.drop_first();
        let ls3 = ls2.drop_first();
        let step0 = patch_step(PatchState::Idle, ls[0], sha);
        assert(step0.0 == PatchState::CountingDown(2u8));
        assert(step0.1 == ls[0]);
        assert(ls1[0] == ls[1]);
        let step1 = patch_step(PatchState::CountingDown(2u8), ls[1], sha);
        assert(step1.0 == PatchState::CountingDown(1u8));
        assert(step1.1 == ls[1]);
        assert(ls2[0] == ls[2]);
        let step2 = patch_step(PatchState::CountingDown(1u8), ls[2], sha);
        assert(step2.0 == PatchState::CountingDown(0u8));
        assert(step2.1 == rev_line(sha));
        assert forall|i: int| 0 <= i < ls3.len() implies !header_key().is_prefix_of(
            #[trigger] ls3[i],
        ) by {
            assert(ls3[i] == ls[i + 3]);
        }
        lemma_patched_lines_from_identity(ls3, PatchState::CountingDown(0u8), sha);
        assert(ls1.drop_first() =~= ls2);
        assert(ls2.drop_first() =~= ls3);
        assert(patched_lines_from(ls2, PatchState::CountingDown(1u8), sha) =~= seq![
            rev_line(sha),
        ] + patched_lines_from(ls3, PatchState::CountingDown(0u8), sha));
        assert(patched_lines_from(ls1, PatchState::CountingDown(2u8), sha) =~= seq![ls[1]]
            + patched_lines_from(ls2, PatchState::CountingDown(1u8), sha));
        assert(patched_lines(ls, sha) =~= seq![ls[0]] + patched_lines_from(
            ls1,
            PatchState::CountingDown(2u8),
            sha,
        ));
        assert(patched_lines(ls, sha) =~= seq![ls[0], ls[1], rev_line(sha)] + ls3);
        assert(patched_lines(ls, sha)[2] == rev_line(sha));
        assert forall|i: int| 0 <= i < ls.len() && i != 2 implies #[trigger] patched_lines(
            ls,
            sha,
        )[i] == ls[i] by {
            if i >= 3 {
                assert(patched_lines(ls, sha)[i] == ls3[i - 3]);
                assert(ls3[i - 3] == ls[i]);
            }
        }
    } else {
        let ls1 = ls.drop_first();
        let step0 = patch_step(PatchState::Idle, ls[0], sha);
        assert(!header_key().is_prefix_of(ls[0]));
        assert(step0.0 == PatchState::Idle);
        assert(step0.1 == ls[0]);
        assert(ls1[h - 1] == ls[h]);
        assert forall|i: int| 0 <= i < ls1.len() && i != h - 1 implies !header_key().is_prefix_of(
            #[trigger] ls1[i],
        ) by {
            assert(ls1[i] == ls[i + 1]);
        }
        lemma_top_rewrite_replaces_one_line(ls1, sha, h - 1);
        assert(patched_lines(ls, sha) =~= seq![ls[0]] + patched_lines(ls1, sha));
        assert(patched_lines(ls, sha)[h + 2] == patched_lines(ls1, sha)[h + 1]);
        assert forall|i: int| 0 <= i < ls.len() && i != h + 2 implies #[trigger] patched_lines(
            ls,
            sha,
        )[i] == ls[i] by {
            if i > 0 {
                assert(patched_lines(ls, sha)[i] == patched_lines(ls1, sha)[i - 1]);
                assert(patched_lines(ls1, sha)[i - 1] == ls1[i - 1]);
                assert(ls1[i - 1] == ls[i]);
            }
        }
    }
}

/// When the single header line sits among the last two lines, the line
/// two after it does not exist, the countdown never runs out, and the
/// scan replaces nothing: every line of the output is identical to its
/// input line.
pub proof fn lemma_top_rewrite_header_without_target(ls: Seq<Seq<char>>, sha: Seq<char>, h: int)
    requires
        0 <= h < ls.len(),
        ls.len() <= h + 2,
        header_key().is_prefix_of(ls[h]),
        forall|i: int| 0 <= i < ls.len() && i != h ==> !header_key().is_prefix_of(
            #[trigger] ls[i],
        ),
    ensures
        patched_lines(ls, sha) == ls,
    decreases h,
{
    if h == 0 {
        let step0 = patch_step(PatchState::Idle, ls[0], sha);
        assert(step0.0 == PatchState::CountingDown(2u8));
        assert(step0.1 == ls[0]);
        let ls1 = ls.drop_first();
        if ls.len() == 1 {
            assert(patched_lines_from(ls1, step0.0, sha) =~= ls1);
            assert(patched_lines(ls, sha) =~= ls);
        } else {
            let step1 = patch_step(PatchState::CountingDown(2u8), ls[1], sha);
            assert(ls1[0] == ls[1]);
            assert(!header_key().is_prefix_of(ls[1]));
            assert(step1.0 == PatchState::CountingDown(1u8));
            assert(step1.1 == ls[1]);
            assert(ls1.drop_first() =~= Seq::<Seq<char>>::empty());
            assert(patched_lines_from(ls1.drop_first(), step1.0, sha) =~= Seq::<Seq<
                char,
            >>::empty());
            assert(patched_lines_from(ls1, PatchState::CountingDown(2u8), sha) =~= seq![ls[1]]);
            assert(patched_lines(ls, sha) =~= ls);
        }
    } else {
        let ls1 = ls.drop_first();
        let step0 = patch_step(PatchState::Idle, ls[0], sha);
        assert(!header_key().is_prefix_of(ls[0]));
        assert(step0.0 == PatchState::Idle);
        assert(step0.1 == ls[0]);
        assert(ls1[h - 1] == ls[h]);
        assert forall|i: int| 0 <= i < ls1.len() && i != h - 1 implies !header_key().is_prefix_of(
            #[trigger] ls1[i],
        ) by {
            assert(ls1[i] == ls[i + 1]);
        }
        lemma_top_rewrite_header_without_target(ls1, sha, h - 1);
        assert(patched_lines(ls, sha) =~= seq![ls[0]] + patched_lines(ls1, sha));
        assert(patched_lines(ls, sha) =~= ls);
    }
}

/// The nested-manifest rewrite is a pure per-line map, and applying it
/// twice with the same version spec is the same as applying it once:
/// the first application's output is a fixed point of the rule.
pub proof fn lemma_nested_rewrite_idempotent(content: Seq<char>, vs: &VersionSpec)
    requires
        version_spec_wf(vs),
    ensures
        rewrite_nested(rewrite_nested(content, vs), vs) == rewrite_nested(content, vs),
{
    let ls = lines_of(content);
    let mapped = rewritten_lines(ls, vs);
    lemma_lines_of_wf(content);
    assert forall|i: int| 0 <= i < mapped.len() implies newline_free(#[trigger] mapped[i]) by {
        lemma_line_rewrite_newline_free(ls[i], vs);
    }
    lemma_lines_of_join(mapped);
    assert(rewritten_lines(mapped, vs) =~~= mapped) by {
        assert forall|i: int| 0 <= i < mapped.len() implies #[trigger] rewritten_lines(
            mapped,
            vs,
        )[i] == mapped[i] by {
            lemma_line_rewrite_idempotent(ls[i], vs);
        }
    }
}

} // verus!
