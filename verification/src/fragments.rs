//! Spec-level description of the markup fragments the builder emits.
//!
//! Every public method of the builder appends one fragment to the buffer;
//! the spec functions here say, character for character, what that fragment
//! is. The proof functions at the end state the structural laws of the
//! rendering: empty option lists leave no bracket pair, options are joined
//! by commas in input order, every emission is an exact suffix of the
//! buffer, and an environment block carries the same keyword on its opening
//! and closing marker.

use vstd::prelude::*;

verus! {

/// The options of a directive, joined by commas in input order.
pub open spec fn comma_join(opts: Seq<Seq<char>>) -> Seq<char>
    decreases opts.len(),
{
    if opts.len() == 0 {
        Seq::empty()
    } else if opts.len() == 1 {
        opts[0]
    } else {
        comma_join(opts.drop_last()) + ","@ + opts.last()
    }
}

/// The bracketed option segment of a directive: absent when there are no
/// options, otherwise one bracket pair around the comma-joined options.
pub open spec fn options_group(opts: Seq<Seq<char>>) -> Seq<char> {
    if opts.len() == 0 {
        Seq::empty()
    } else {
        "["@ + comma_join(opts) + "]"@
    }
}

/// A required argument in braces.
pub open spec fn brace_group(s: Seq<char>) -> Seq<char> {
    "{"@ + s + "}"@
}

/// An optional argument in brackets.
pub open spec fn bracket_group(s: Seq<char>) -> Seq<char> {
    "["@ + s + "]"@
}

/// An optional bracketed argument: nothing when absent.
pub open spec fn opt_bracket(o: Option<Seq<char>>) -> Seq<char> {
    match o {
        Some(s) => bracket_group(s),
        None => Seq::empty(),
    }
}

/// A coordinate pair in parentheses, as the picture environment takes it.
pub open spec fn paren_pair(x: Seq<char>, y: Seq<char>) -> Seq<char> {
    "("@ + x + ","@ + y + ")"@
}

/// A directive with a keyword argument and an optional option list,
/// ended by a line break.
pub open spec fn directive_line(name: Seq<char>, opts: Seq<Seq<char>>, keyword: Seq<char>) -> Seq<
    char,
> {
    "\\"@ + name + options_group(opts) + brace_group(keyword) + "\n"@
}

/// An argument-taking command that ends its own line.
pub open spec fn cmd_arg_line(name: Seq<char>, arg: Seq<char>) -> Seq<char> {
    "\\"@ + name + brace_group(arg) + "\n"@
}

/// An argument-taking inline command.
pub open spec fn cmd_arg(name: Seq<char>, arg: Seq<char>) -> Seq<char> {
    "\\"@ + name + brace_group(arg)
}

/// The opening marker of an environment, with its parameter segment.
pub open spec fn env_open(name: Seq<char>, params: Seq<char>) -> Seq<char> {
    "\\begin"@ + brace_group(name) + params + "\n"@
}

/// The closing marker of an environment.
pub open spec fn env_close(name: Seq<char>) -> Seq<char> {
    "\\end"@ + brace_group(name) + "\n"@
}

/// A whole environment block: opening marker, content on its own line,
/// closing marker.
pub open spec fn env_block(name: Seq<char>, params: Seq<char>, content: Seq<char>) -> Seq<char> {
    env_open(name, params) + content + "\n"@ + env_close(name)
}

/// Appending one more option extends the joined list at its end, behind a
/// comma: options keep their input order.
pub proof fn lemma_comma_join_push(opts: Seq<Seq<char>>, o: Seq<char>)
    requires
        opts.len() >= 1,
    ensures
        comma_join(opts.push(o)) == comma_join(opts) + ","@ + o,
{
    assert(opts.push(o).drop_last() =~= opts);
    assert(opts.push(o).last() == o);
}

/// A directive with an empty option list omits the bracket segment
/// entirely: its text is exactly the keyword part.
pub proof fn lemma_empty_options_no_bracket(name: Seq<char>, opts: Seq<Seq<char>>, keyword: Seq<
    char,
>)
    requires
        opts.len() == 0,
    ensures
        directive_line(name, opts, keyword) == "\\"@ + name + brace_group(keyword) + "\n"@,
{
    assert(directive_line(name, opts, keyword) =~= "\\"@ + name + brace_group(keyword) + "\n"@);
}

/// A directive with at least one option carries exactly one bracket pair,
/// holding the options comma-joined in input order.
pub proof fn lemma_options_single_bracket_pair(name: Seq<char>, opts: Seq<Seq<char>>, keyword: Seq<
    char,
>)
    requires
        opts.len() >= 1,
    ensures
        directive_line(name, opts, keyword) == "\\"@ + name + ("["@ + comma_join(opts) + "]"@)
            + brace_group(keyword) + "\n"@,
{
}

/// Whatever the buffer held before, an emission stands as the exact suffix
/// after it, and the old buffer stands unchanged before it: fixed markers
/// in particular emit their literal text independent of builder state.
pub proof fn lemma_emission_is_exact_suffix(base: Seq<char>, frag: Seq<char>)
    ensures
        (base + frag).take(base.len() as int) == base,
        (base + frag).skip(base.len() as int) == frag,
{
    assert((base + frag).take(base.len() as int) =~= base);
    assert((base + frag).skip(base.len() as int) =~= frag);
}

/// An environment block is three ordered parts: the opening marker with
/// the parameter segment, the content on its own line, and the closing
/// marker, with the same keyword inside both markers.
pub proof fn lemma_env_block_parts(name: Seq<char>, params: Seq<char>, content: Seq<char>)
    ensures
        env_block(name, params, content) == env_open(name, params) + content + "\n"@ + env_close(
            name,
        ),
        env_open(name, params) == "\\begin"@ + "{"@ + name + "}"@ + params + "\n"@,
        env_close(name) == "\\end"@ + "{"@ + name + "}"@ + "\n"@,
{
    assert(env_open(name, params) =~= "\\begin"@ + "{"@ + name + "}"@ + params + "\n"@);
    assert(env_close(name) =~= "\\end"@ + "{"@ + name + "}"@ + "\n"@);
}

} // verus!
