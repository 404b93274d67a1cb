//! Emission of the `PackageInfo` implementation for a target type.
//!
//! Given the target type declaration (its name and the rendered pieces of its
//! generics) and the metadata record, the generator emits Rust source text for
//! an implementation of the contract whose twelve method bodies test a baked
//! string literal for emptiness and return the value as a literal otherwise.
//! The emitted text is a pure function of the declaration and the record, so
//! generation is deterministic.

use vstd::prelude::*;
use vstd::string::*;

use crate::metadata::{PackageMetadata, PackageMetadataView};

verus! {

/// Relies on the documented behavior of `String::push`: appends the given
/// character to the end of the string.
pub assume_specification[ String::push ](s: &mut String, c: char)
    ensures
        final(s)@ == old(s)@.push(c),
;

/// How one character is written inside a generated string literal: quotes,
/// backslashes and the blank control characters are escaped, every other
/// character stands as itself.
pub open spec fn spec_escaped_char(c: char) -> Seq<char> {
    if c == '\\' {
        seq!['\\', '\\']
    } else if c == '"' {
        seq!['\\', '"']
    } else if c == '\r' {
        seq!['\\', 'r']
    } else if c == '\n' {
        seq!['\\', 'n']
    } else if c == '\t' {
        seq!['\\', 't']
    } else {
        seq![c]
    }
}

/// The body of a generated string literal holding the text `s`: each
/// character escaped as `spec_escaped_char` says.
pub open spec fn spec_escaped(s: Seq<char>) -> Seq<char>
    decreases s.len(),
{
    if s.len() == 0 {
        Seq::empty()
    } else {
        spec_escaped_char(s.first()) + spec_escaped(s.drop_first())
    }
}

proof fn lemma_escaped_snoc(s: Seq<char>, c: char)
    ensures
        spec_escaped(s.push(c)) == spec_escaped(s) + spec_escaped_char(c),
    decreases s.len(),
{
    if s.len() == 0 {
        assert(s.push(c).first() == c);
        assert(s.push(c).drop_first() =~= Seq::<char>::empty());
        assert(spec_escaped(s.push(c)) == spec_escaped_char(c) + spec_escaped(
            Seq::<char>::empty(),
        ));
        assert(spec_escaped_char(c) + Seq::<char>::empty() =~= Seq::<char>::empty()
            + spec_escaped_char(c));
    } else {
        lemma_escaped_snoc(s.drop_first(), c);
        assert(s.push(c).drop_first() =~= s.drop_first().push(c));
        assert(s.push(c).first() == s.first());
        let a = spec_escaped_char(s.first());
        let b = spec_escaped(s.drop_first());
        let d = spec_escaped_char(c);
        assert(spec_escaped(s.push(c)) == a + (b + d));
        assert(a + (b + d) =~= (a + b) + d);
    }
}

/// The character an escape pair `\x` stands for.
pub open spec fn spec_unescaped_char(c: char) -> char {
    if c == 'r' {
        '\r'
    } else if c == 'n' {
        '\n'
    } else if c == 't' {
        '\t'
    } else {
        c
    }
}

/// The text a string literal body denotes: a backslash and its follower read
/// as one character, every other character as itself.
pub open spec fn spec_unescaped(s: Seq<char>) -> Seq<char>
    decreases s.len(),
{
    if s.len() == 0 {
        Seq::empty()
    } else if s.first() == '\\' && s.len() >= 2 {
        seq![spec_unescaped_char(s[1])] + spec_unescaped(s.skip(2))
    } else {
        seq![s.first()] + spec_unescaped(s.skip(1))
    }
}

/// A baked literal denotes exactly the text it was made from: reading the
/// escaped text back gives the original, character for character — no
/// trimming, no transformation.
pub proof fn lemma_escape_faithful(s: Seq<char>)
    ensures
        spec_unescaped(spec_escaped(s)) == s,
    decreases s.len(),
{
    if s.len() == 0 {
    } else {
        let c = s.first();
        let rest = s.drop_first();
        lemma_escape_faithful(rest);
        let e = spec_escaped(s);
        let pair = spec_escaped_char(c);
        assert(e == pair + spec_escaped(rest));
        if c == '\\' || c == '"' || c == '\r' || c == '\n' || c == '\t' {
            assert(pair.len() == 2 && pair[0] == '\\');
            assert(e.first() == '\\' && e.len() >= 2);
            assert(e[1] == pair[1]);
            assert(spec_unescaped_char(pair[1]) == c);
            assert(e.skip(2) =~= spec_escaped(rest));
            assert(seq![c] + rest =~= s);
        } else {
            assert(pair.len() == 1 && pair[0] == c);
            assert(e.first() == c && e.first() != '\\');
            assert(e.skip(1) =~= spec_escaped(rest));
            assert(seq![c] + rest =~= s);
        }
    }
}

/// Escaping keeps emptiness: the baked literal is empty exactly when the
/// source text is, so the emptiness test in a generated method body decides
/// presence the same way the absent/present rule does on the raw value.
pub proof fn lemma_escaped_empty_iff(s: Seq<char>)
    ensures
        spec_escaped(s).len() == 0 <==> s.len() == 0,
{
    if s.len() > 0 {
        assert(spec_escaped_char(s.first()).len() >= 1);
    }
}

/// Escape `s` so that it can stand between double quotes in Rust source and
/// denote exactly `s`.
pub fn escape_literal(s: &str) -> (r: String)
    ensures
        r@ == spec_escaped(s@),
{
    let n = s.unicode_len();
    let mut out = String::new();
    let mut i: usize = 0;
    while i < n
        invariant
            n == s@.len(),
            i <= n,
            out@ == spec_escaped(s@.subrange(0, i as int)),
        decreases n - i,
    {
        let c = s.get_char(i);
        if c == '\\' {
            out.push('\\');
            out.push('\\');
        } else if c == '"' {
            out.push('\\');
            out.push('"');
        } else if c == '\r' {
            out.push('\\');
            out.push('r');
        } else if c == '\n' {
            out.push('\\');
            out.push('n');
        } else if c == '\t' {
            out.push('\\');
            out.push('t');
        } else {
            out.push(c);
        }
        proof {
            let pre = s@.subrange(0, i as int);
            let ext = s@.subrange(0, i + 1 as int);
            lemma_escaped_snoc(pre, s@[i as int]);
            assert(ext =~= pre.push(s@[i as int]));
            assert(out@ =~= spec_escaped(pre) + spec_escaped_char(s@[i as int]));
        }
        i += 1;
    }
    proof {
        assert(s@.subrange(0, n as int) =~= s@);
    }
    out
}

/// The target of a generation run: the declared type's name and the three
/// rendered pieces of its generics, exactly as they must reappear in the
/// implementation header. All three pieces are empty for a non-generic type.
pub struct TypeDeclaration {
    /// The type's name.
    pub name: String,
    /// The generic parameter list with its bounds, `<T: Clone>`, for the
    /// `impl` keyword.
    pub generics_decl: String,
    /// The bare generic argument list, `<T>`, for the type's use site.
    pub generics_use: String,
    /// The `where` clause, if the declaration has one.
    pub where_clause: String,
}

/// Mathematical view of [`TypeDeclaration`].
pub struct TypeDeclarationView {
    pub name: Seq<char>,
    pub generics_decl: Seq<char>,
    pub generics_use: Seq<char>,
    pub where_clause: Seq<char>,
}

impl View for TypeDeclaration {
    type V = TypeDeclarationView;

    open spec fn view(&self) -> TypeDeclarationView {
        TypeDeclarationView {
            name: self.name@,
            generics_decl: self.generics_decl@,
            generics_use: self.generics_use@,
            where_clause: self.where_clause@,
        }
    }
}

/// The text of one generated accessor: a method that tests the baked literal
/// for emptiness and returns it as a present value otherwise.
pub open spec fn spec_method_text(method: Seq<char>, value: Seq<char>) -> Seq<char> {
    "    fn "@ + method + "() -> Option<String> { if \""@ + spec_escaped(value)
        + "\".is_empty() { None } else { Some(\""@ + spec_escaped(value)
        + "\".to_string()) } }\n"@
}

/// The header of the generated implementation: the contract is implemented
/// for the declared type, with its generics carried over unchanged.
pub open spec fn spec_impl_header(d: TypeDeclarationView) -> Seq<char> {
    "impl "@ + d.generics_decl + " package_info::PackageInfo for "@ + d.name
        + d.generics_use + " "@ + d.where_clause + " {\n"@
}

/// The full generated implementation: the header, the twelve accessors in
/// their fixed order, and the closing brace.
pub open spec fn spec_impl_text(d: TypeDeclarationView, m: PackageMetadataView) -> Seq<char> {
    spec_impl_header(d) + spec_method_text("authors"@, m.authors)
        + spec_method_text("description"@, m.description)
        + spec_method_text("homepage"@, m.homepage)
        + spec_method_text("license"@, m.license)
        + spec_method_text("license_file"@, m.license_file)
        + spec_method_text("name"@, m.name)
        + spec_method_text("repository"@, m.repository)
        + spec_method_text("version"@, m.version)
        + spec_method_text("version_major"@, m.version_major)
        + spec_method_text("version_minor"@, m.version_minor)
        + spec_method_text("version_patch"@, m.version_patch)
        + spec_method_text("version_pre"@, m.version_pre) + "}\n"@
}

/// Emit one accessor method returning the baked `value`.
fn method_text(method: &str, value: &str) -> (r: String)
    ensures
        r@ == spec_method_text(method@, value@),
{
    let esc = escape_literal(value);
    let mut t = "    fn ".to_owned();
    t.append(method);
    t.append("() -> Option<String> { if \"");
    t.append(esc.as_str());
    t.append("\".is_empty() { None } else { Some(\"");
    t.append(esc.as_str());
    t.append("\".to_string()) } }\n");
    t
}

/// Emit the `PackageInfo` implementation for the declared type with the given
/// metadata baked in. The result is exactly `spec_impl_text` of the two
/// arguments: a pure function of them, so repeated runs over the same state
/// emit identical text.
pub fn generate_impl_source(decl: &TypeDeclaration, meta: &PackageMetadata) -> (r: String)
    ensures
        r@ == spec_impl_text(decl@, meta@),
{
    let mut out = "impl ".to_owned();
    out.append(decl.generics_decl.as_str());
    out.append(" package_info::PackageInfo for ");
    out.append(decl.name.as_str());
    out.append(decl.generics_use.as_str());
    out.append(" ");
    out.append(decl.where_clause.as_str());
    out.append(" {\n");
    let m = method_text("authors", meta.authors.as_str());
    out.append(m.as_str());
    let m = method_text("description", meta.description.as_str());
    out.append(m.as_str());
    let m = method_text("homepage", meta.homepage.as_str());
    out.append(m.as_str());
    let m = method_text("license", meta.license.as_str());
    out.append(m.as_str());
    let m = method_text("license_file", meta.license_file.as_str());
    out.append(m.as_str());
    let m = method_text("name", meta.name.as_str());
    out.append(m.as_str());
    let m = method_text("repository", meta.repository.as_str());
    out.append(m.as_str());
    let m = method_text("version", meta.version.as_str());
    out.append(m.as_str());
    let m = method_text("version_major", meta.version_major.as_str());
    out.append(m.as_str());
    let m = method_text("version_minor", meta.version_minor.as_str());
    out.append(m.as_str());
    let m = method_text("version_patch", meta.version_patch.as_str());
    out.append(m.as_str());
    let m = method_text("version_pre", meta.version_pre.as_str());
    out.append(m.as_str());
    out.append("}\n");
    out
}

/// Generation is deterministic: the emitted implementation is a function of
/// the declaration and the metadata record alone, so identical inputs give
/// textually identical output.
pub proof fn lemma_generation_deterministic(
    d1: TypeDeclarationView,
    m1: PackageMetadataView,
    d2: TypeDeclarationView,
    m2: PackageMetadataView,
)
    requires
        d1 == d2,
        m1 == m2,
    ensures
        spec_impl_text(d1, m1) == spec_impl_text(d2, m2),
{
}

/// The declared type's generics are retained in the generated implementation
/// signature: the emitted text starts with the header, and the header carries
/// the generic parameter list, the type's name with its generic arguments,
/// and the `where` clause, each unchanged at its fixed offset.
#[verifier::rlimit(100)]
pub proof fn lemma_generics_retained(d: TypeDeclarationView, m: PackageMetadataView)
    ensures
        ({
            let t = spec_impl_text(d, m);
            let h = spec_impl_header(d);
            let gd = d.generics_decl.len() as int;
            let nm = d.name.len() as int;
            let gu = d.generics_use.len() as int;
            let wc = d.where_clause.len() as int;
            &&& h.len() == 40 + gd + nm + gu + wc
            &&& t.len() >= h.len()
            &&& t.subrange(0, h.len() as int) == h
            &&& h.subrange(5, 5 + gd) == d.generics_decl
            &&& h.subrange(36 + gd, 36 + gd + nm) == d.name
            &&& h.subrange(36 + gd + nm, 36 + gd + nm + gu) == d.generics_use
            &&& h.subrange(37 + gd + nm + gu, 37 + gd + nm + gu + wc) == d.where_clause
        }),
{
    reveal_strlit("impl ");
    reveal_strlit(" package_info::PackageInfo for ");
    reveal_strlit(" ");
    reveal_strlit(" {\n");
    let t = spec_impl_text(d, m);
    let h = spec_impl_header(d);
    let gd = d.generics_decl.len() as int;
    let nm = d.name.len() as int;
    let gu = d.generics_use.len() as int;
    let wc = d.where_clause.len() as int;
    assert(h.len() == 40 + gd + nm + gu + wc);
    assert(h.subrange(5, 5 + gd) =~= d.generics_decl);
    assert(h.subrange(36 + gd, 36 + gd + nm) =~= d.name);
    assert(h.subrange(36 + gd + nm, 36 + gd + nm + gu) =~= d.generics_use);
    assert(h.subrange(37 + gd + nm + gu, 37 + gd + nm + gu + wc) =~= d.where_clause);
    assert(t.subrange(0, h.len() as int) =~= h);
}

} // verus!
