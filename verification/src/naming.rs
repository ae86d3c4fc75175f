//! Names: from protobuf identifiers and dotted paths to Rust identifiers and
//! paths.

use heck::ToSnakeCase;
use heck::ToUpperCamelCase;
use vstd::prelude::*;
use vstd::string::StrSliceExecFns;
use vstd::string::StringExecFns;

verus! {

/// The snake_case form of `name`: lower-case words joined by underscores, with
/// the word boundaries that `heck` finds.
pub uninterp spec fn snake_case(name: Seq<char>) -> Seq<char>;

/// The UpperCamelCase form of `name`: capitalised words run together, with the
/// word boundaries that `heck` finds.
pub uninterp spec fn upper_camel_case(name: Seq<char>) -> Seq<char>;

/// Calls `heck::ToSnakeCase::to_snake_case` on `name`. The conversion reads
/// nothing but its argument, so its result is the snake_case form of `name`.
#[verifier::external_body]
fn to_snake_case(name: &str) -> (converted: String)
    ensures
        converted@ == snake_case(name@),
{
    name.to_snake_case()
}

/// Calls `heck::ToUpperCamelCase::to_upper_camel_case` on `name`. The
/// conversion reads nothing but its argument, so its result is the
/// UpperCamelCase form of `name`.
#[verifier::external_body]
fn to_upper_camel_case(name: &str) -> (converted: String)
    ensures
        converted@ == upper_camel_case(name@),
{
    name.to_upper_camel_case()
}

/// The separator between the segments of a Rust path.
pub open spec fn path_separator() -> Seq<char> {
    seq![':', ':']
}

/// The segments of a dotted path: the pieces between its dots, in order. A path
/// of `k` dots has `k + 1` segments, some of which may be empty.
pub open spec fn segments(path: Seq<char>) -> Seq<Seq<char>>
    decreases path.len(),
{
    if path.len() == 0 {
        seq![Seq::<char>::empty()]
    } else {
        let before = segments(path.drop_last());
        if path.last() == '.' {
            before.push(Seq::<char>::empty())
        } else {
            before.drop_last().push(before.last().push(path.last()))
        }
    }
}

/// The namespace segments of a path: every segment but the last, without the
/// empty segment that a leading dot puts in front.
pub open spec fn namespaces(path: Seq<char>) -> Seq<Seq<char>> {
    drop_root(segments(path).drop_last())
}

/// `leading` without its first segment where that one is empty.
pub open spec fn drop_root(leading: Seq<Seq<char>>) -> Seq<Seq<char>> {
    if leading.len() > 0 && leading[0].len() == 0 {
        leading.skip(1)
    } else {
        leading
    }
}

/// Each of `names` with a path separator in front of it, run together.
pub open spec fn prefixed(names: Seq<Seq<char>>) -> Seq<char>
    decreases names.len(),
{
    if names.len() == 0 {
        Seq::<char>::empty()
    } else {
        prefixed(names.drop_last()) + path_separator() + names.last()
    }
}

/// The Rust path of a protobuf type path: the namespace segments as they are,
/// then the type name in UpperCamelCase, each with a path separator in front.
pub open spec fn rust_path(path: Seq<char>) -> Seq<char> {
    prefixed(namespaces(path)) + path_separator() + upper_camel_case(segments(path).last())
}

/// The reference to a protobuf type from generated code: its Rust path below
/// `proto_root`.
pub open spec fn qualified_type(path: Seq<char>, proto_root: Seq<char>) -> Seq<char> {
    proto_root + rust_path(path)
}

/// A path has at least one segment.
pub proof fn lemma_segments_nonempty(path: Seq<char>)
    ensures
        segments(path).len() >= 1,
    decreases path.len(),
{
    if path.len() > 0 {
        lemma_segments_nonempty(path.drop_last());
    }
}

/// `names` with a dot between each two of them.
pub open spec fn dotted(names: Seq<Seq<char>>) -> Seq<char>
    decreases names.len(),
{
    if names.len() == 0 {
        Seq::<char>::empty()
    } else if names.len() == 1 {
        names[0]
    } else {
        dotted(names.drop_last()) + seq!['.'] + names.last()
    }
}

/// The segments of a path are its pieces between the dots: none of them holds a
/// dot, and with the dots put back between them they are the path.
pub proof fn lemma_segments_split(path: Seq<char>)
    ensures
        forall|i: int| 0 <= i < segments(path).len() ==> !(#[trigger] segments(path)[i]).contains('.'),
        dotted(segments(path)) == path,
    decreases path.len(),
{
    lemma_segments_nonempty(path);
    if path.len() == 0 {
        assert(dotted(segments(path)) == path);
    } else {
        let shorter = path.drop_last();
        let before = segments(shorter);
        lemma_segments_split(shorter);
        lemma_segments_nonempty(shorter);
        assert(shorter.push(path.last()) == path);
        if path.last() == '.' {
            let after = before.push(Seq::<char>::empty());
            assert(after.drop_last() == before);
            assert(dotted(after) == dotted(before) + seq!['.'] + Seq::<char>::empty());
            assert(dotted(after) == path);
        } else {
            let grown = before.last().push(path.last());
            let after = before.drop_last().push(grown);
            assert forall|k: int| 0 <= k < grown.len() implies grown[k] != '.' by {
                if k < before.last().len() {
                    assert(before.last().contains(before.last()[k]));
                }
            }
            assert(after.drop_last() == before.drop_last());
            if before.len() == 1 {
                assert(dotted(before) == before.last());
                assert(dotted(after) == grown);
            } else {
                assert(dotted(before) == dotted(before.drop_last()) + seq!['.'] + before.last());
                assert(dotted(after) == dotted(before.drop_last()) + seq!['.'] + grown);
                assert(dotted(after) == dotted(before).push(path.last()));
            }
            assert(dotted(after) == path);
        }
    }
}

/// The name of a Rust module for `name`: its snake_case form.
pub fn rust_mod_name_convention(name: &str) -> (converted: String)
    ensures
        converted@ == snake_case(name@),
{
    to_snake_case(name)
}

/// The name of a Rust method for `name`: its snake_case form.
pub fn rust_method_name_convention(name: &str) -> (converted: String)
    ensures
        converted@ == snake_case(name@),
{
    to_snake_case(name)
}

/// The name of a Rust struct for `name`: its UpperCamelCase form.
pub fn rust_struct_name_convention(name: &str) -> (converted: String)
    ensures
        converted@ == upper_camel_case(name@),
{
    to_upper_camel_case(name)
}

/// The Rust module of a protobuf package: the last segment of its dotted path,
/// so `.package_1.package_2.package_3` gives `package_3`.
pub fn protobuf_path_to_rust_mod(path: &str) -> (module: String)
    ensures
        module@ == segments(path@).last(),
{
    let n: usize = path.unicode_len();
    let mut start: usize = 0;
    let mut i: usize = 0;
    for c in it: path.chars()
        invariant
            it.seq() == path@,
            n == path@.len(),
            i == it.index(),
            start <= i <= n,
            segments(path@.take(i as int)).len() >= 1,
            segments(path@.take(i as int)).last() == path@.subrange(start as int, i as int),
    {
        proof {
            let next = path@.take(i + 1);
            assert(next.drop_last() == path@.take(i as int));
            assert(next.last() == c);
            lemma_segments_nonempty(next);
            if c != '.' {
                assert(path@.subrange(start as int, i as int).push(c) == path@.subrange(
                    start as int,
                    i + 1,
                ));
            } else {
                assert(path@.subrange(i + 1, i + 1) == Seq::<char>::empty());
            }
        }
        i = i + 1;
        if c == '.' {
            start = i;
        }
    }
    proof {
        assert(path@.take(n as int) == path@);
    }
    path.substring_char(start, n).to_owned()
}

/// The Rust path of a protobuf type path, so `.package.Message` gives
/// `::package::Message`. The type name goes through
/// [`rust_struct_name_convention`]; the namespace segments stay as they are,
/// and the empty segment of a leading dot is left out.
pub fn protobuf_path_to_rust_path(path: &str) -> (rust: String)
    ensures
        rust@ == rust_path(path@),
{
    let n: usize = path.unicode_len();
    let mut rust = String::new();
    let mut start: usize = 0;
    let mut i: usize = 0;
    let ghost mut closed: Seq<Seq<char>> = Seq::empty();
    proof {
        reveal_strlit("::");
        assert("::"@ == path_separator());
        assert(path@.take(0) == Seq::<char>::empty());
        assert(path@.subrange(0, 0) == Seq::<char>::empty());
        assert(segments(path@.take(0)) == closed.push(path@.subrange(0, 0)));
    }
    for c in it: path.chars()
        invariant
            it.seq() == path@,
            n == path@.len(),
            i == it.index(),
            start <= i <= n,
            (start == 0) <==> closed.len() == 0,
            segments(path@.take(i as int)) == closed.push(path@.subrange(start as int, i as int)),
            rust@ == prefixed(drop_root(closed)),
            "::"@ == path_separator(),
    {
        proof {
            let next = path@.take(i + 1);
            assert(next.drop_last() == path@.take(i as int));
            assert(next.last() == c);
            let open = path@.subrange(start as int, i as int);
            assert(closed.push(open).drop_last() == closed);
            if c != '.' {
                assert(open.push(c) == path@.subrange(start as int, i + 1));
            } else {
                assert(path@.subrange(i + 1, i + 1) == Seq::<char>::empty());
            }
        }
        if c == '.' {
            let segment = path.substring_char(start, i);
            if start != 0 || i != 0 {
                rust.append("::");
                rust.append(segment);
            }
            proof {
                let grown = closed.push(segment@);
                assert(grown.drop_last() == closed);
                if closed.len() == 0 {
                    if segment@.len() == 0 {
                        assert(drop_root(grown) == Seq::<Seq<char>>::empty());
                    } else {
                        assert(drop_root(grown).drop_last() == Seq::<Seq<char>>::empty());
                    }
                } else {
                    assert(drop_root(grown).drop_last() == drop_root(closed));
                }
                closed = grown;
            }
            start = i + 1;
        }
        i = i + 1;
    }
    proof {
        assert(path@.take(n as int) == path@);
        assert(closed.push(path@.subrange(start as int, n as int)).drop_last() == closed);
    }
    let name = rust_struct_name_convention(path.substring_char(start, n));
    rust.append("::");
    rust.append(name.as_str());
    rust
}

/// Splitting a path with a dot in front gives an empty segment, then the
/// segments of the path.
pub proof fn lemma_segments_of_rooted(path: Seq<char>)
    ensures
        segments(seq!['.'] + path) == seq![Seq::<char>::empty()] + segments(path),
    decreases path.len(),
{
    let rooted = seq!['.'] + path;
    lemma_segments_nonempty(path);
    if path.len() == 0 {
        assert(rooted.drop_last() == Seq::<char>::empty());
        assert(rooted.last() == '.');
        assert(segments(rooted.drop_last()) == seq![Seq::<char>::empty()]);
        assert(segments(rooted) == seq![Seq::<char>::empty()].push(Seq::<char>::empty()));
        assert(segments(rooted) == seq![Seq::<char>::empty()] + segments(path));
    } else {
        lemma_segments_of_rooted(path.drop_last());
        lemma_segments_nonempty(path.drop_last());
        assert(rooted.drop_last() == seq!['.'] + path.drop_last());
        assert(rooted.last() == path.last());
        let before = segments(path.drop_last());
        let rooted_before = seq![Seq::<char>::empty()] + before;
        if path.last() == '.' {
            assert(rooted_before.push(Seq::<char>::empty()) == seq![Seq::<char>::empty()]
                + before.push(Seq::<char>::empty()));
        } else {
            assert(rooted_before.last() == before.last());
            assert(rooted_before.drop_last() == seq![Seq::<char>::empty()] + before.drop_last());
            assert(rooted_before.drop_last().push(before.last().push(path.last())) == seq![
                Seq::<char>::empty(),
            ] + before.drop_last().push(before.last().push(path.last())));
        }
    }
}

/// The first segment of a path that does not begin with a dot is empty only
/// where the path is empty.
pub proof fn lemma_first_segment(path: Seq<char>)
    requires
        path.len() > 0,
        path[0] != '.',
    ensures
        segments(path).len() >= 1,
        segments(path)[0].len() > 0,
    decreases path.len(),
{
    lemma_segments_nonempty(path);
    if path.len() == 1 {
        assert(path.drop_last() == Seq::<char>::empty());
        assert(segments(path.drop_last()) == seq![Seq::<char>::empty()]);
    } else {
        lemma_first_segment(path.drop_last());
    }
}

/// A path without a dot is its own single segment.
pub proof fn lemma_segments_of_plain(path: Seq<char>)
    requires
        !path.contains('.'),
    ensures
        segments(path) == seq![path],
    decreases path.len(),
{
    if path.len() > 0 {
        let shorter = path.drop_last();
        assert forall|i: int| 0 <= i < shorter.len() implies shorter[i] != '.' by {
            assert(path.contains(path[i]));
        }
        lemma_segments_of_plain(shorter);
        assert(path.contains(path.last()));
        assert(shorter.push(path.last()) == path);
        assert(seq![shorter].drop_last().push(shorter.push(path.last())) == seq![path]);
    } else {
        assert(path == Seq::<char>::empty());
    }
}

/// A leading dot marks the root and changes nothing else: a path that does not
/// itself begin with a dot gives the same reference with a dot in front of it
/// as without.
pub proof fn lemma_root_marker_ignored(path: Seq<char>, proto_root: Seq<char>)
    requires
        path.len() > 0 ==> path[0] != '.',
    ensures
        namespaces(seq!['.'] + path) == namespaces(path),
        qualified_type(seq!['.'] + path, proto_root) == qualified_type(path, proto_root),
{
    let rooted = seq!['.'] + path;
    let root = seq![Seq::<char>::empty()];
    lemma_segments_of_rooted(path);
    lemma_segments_nonempty(path);
    let leading = segments(path).drop_last();
    assert(segments(rooted).drop_last() == root + leading);
    assert((root + leading).skip(1) == leading);
    assert(segments(rooted).last() == segments(path).last());
    if path.len() > 0 {
        lemma_first_segment(path);
    } else {
        assert(leading.len() == 0);
    }
    assert(drop_root(leading) == leading);
}

/// A type path of one segment has no namespace: its reference is the root, a
/// path separator and the type name in UpperCamelCase.
pub proof fn lemma_unqualified_type(path: Seq<char>, proto_root: Seq<char>)
    requires
        !path.contains('.'),
    ensures
        namespaces(path).len() == 0,
        qualified_type(path, proto_root) == proto_root + path_separator() + upper_camel_case(path),
{
    lemma_segments_of_plain(path);
    assert(seq![path].drop_last() == Seq::<Seq<char>>::empty());
    assert(seq![path].last() == path);
    assert(prefixed(Seq::<Seq<char>>::empty()) + path_separator() == path_separator());
    assert(proto_root + (path_separator() + upper_camel_case(path)) == proto_root
        + path_separator() + upper_camel_case(path));
}

} // verus!
