//! Library behind the `ccg` command line: it decides, from the invocation
//! arguments, exactly which lines the program writes to standard output — an
//! optional echo of the first user-supplied argument, followed by a fixed
//! usage banner whose greeting line is rendered in green.

use vstd::prelude::*;
use vstd::string::StringExecFns;

verus! {

/// The greeting, before any colouring is applied.
pub open spec fn greeting_text() -> Seq<char> {
    "Welcome to CleanCodersGIT!"@
}

/// The usage synopsis line.
pub open spec fn synopsis_text() -> Seq<char> {
    "Usage: ./ccg [options] [--] [file...]"@
}

/// The header above the argument descriptions.
pub open spec fn arguments_header_text() -> Seq<char> {
    "Arguments:"@
}

/// The bare help flags.
pub open spec fn help_flags_text() -> Seq<char> {
    "  -h, --help"@
}

/// What the bare help flags are documented to do.
pub open spec fn help_flags_detail_text() -> Seq<char> {
    "    Display this usage message and exit."@
}

/// The help flags with a command argument.
pub open spec fn help_command_text() -> Seq<char> {
    "  -h <command>, --help <command>"@
}

/// What the help flags with a command are documented to do.
pub open spec fn help_command_detail_text() -> Seq<char> {
    "    Shows useful informateion about the given command."@
}

/// An empty line.
pub open spec fn blank_text() -> Seq<char> {
    ""@
}

/// The usage banner, line by line, in its fixed order: greeting, blank,
/// synopsis, blank, arguments header, then the two help-option descriptions
/// with their detail lines, a blank line between them.
pub open spec fn banner_text(greeting_line: Seq<char>) -> Seq<Seq<char>> {
    seq![
        greeting_line,
        blank_text(),
        synopsis_text(),
        blank_text(),
        arguments_header_text(),
        help_flags_text(),
        help_flags_detail_text(),
        blank_text(),
        help_command_text(),
        help_command_detail_text(),
    ]
}

/// Builds the usage banner around an already rendered greeting line.
pub fn banner_lines(greeting_line: String) -> (r: Vec<String>)
    ensures
        r.deep_view() == banner_text(greeting_line@),
{
    let mut r: Vec<String> = Vec::new();
    r.push(greeting_line);
    r.push(String::from_str(""));
    r.push(String::from_str("Usage: ./ccg [options] [--] [file...]"));
    r.push(String::from_str(""));
    r.push(String::from_str("Arguments:"));
    r.push(String::from_str("  -h, --help"));
    r.push(String::from_str("    Display this usage message and exit."));
    r.push(String::from_str(""));
    r.push(String::from_str("  -h <command>, --help <command>"));
    r.push(String::from_str("    Shows useful informateion about the given command."));
    proof {
        assert(r.deep_view() =~= banner_text(r@[0]@));
    }
    r
}

/// The text that precedes the first user-supplied argument when it is echoed.
pub open spec fn echo_prefix_text() -> Seq<char> {
    "The first argument is "@
}

/// The line that echoes the first user-supplied argument.
pub open spec fn echo_text(arg: Seq<char>) -> Seq<char> {
    echo_prefix_text() + arg
}

/// Everything the program writes, line by line, given the full invocation
/// argument sequence (element 0 being the program path) and the rendered
/// greeting line: the echo line first when at least one user-supplied
/// argument is present, then the banner; the banner alone otherwise.
pub open spec fn output_text(args: Seq<Seq<char>>, greeting_line: Seq<char>) -> Seq<Seq<char>> {
    if args.len() > 1 {
        seq![echo_text(args[1])] + banner_text(greeting_line)
    } else {
        banner_text(greeting_line)
    }
}

/// Where the greeting line stands in the output.
pub open spec fn greeting_index(args: Seq<Seq<char>>) -> int {
    if args.len() > 1 {
        1
    } else {
        0
    }
}

/// The escape sequence that switches the terminal's foreground to green.
pub open spec fn green_prefix_text() -> Seq<char> {
    "\u{1B}[32m"@
}

/// The escape sequence that resets the terminal's colours.
pub open spec fn colour_reset_text() -> Seq<char> {
    "\u{1B}[0m"@
}

/// How a green rendering of `s` may read. Whether colours are applied is
/// decided by the environment at run time (terminal detection, overrides),
/// so both outcomes must be admitted: the text unchanged, or the text
/// wrapped in the green escape prefix and the reset suffix.
pub open spec fn green_rendering(s: Seq<char>, r: Seq<char>) -> bool {
    ||| r == s
    ||| r == green_prefix_text() + s + colour_reset_text()
}

/// Relies on `colored::Colorize::green` and on `ColoredString`'s `Display`
/// impl: when colouring is disabled the input is written unchanged, and when
/// it is enabled the input is written between the green style prefix and the
/// reset suffix. An input holding an escape character could additionally be
/// rewritten from within, so such inputs are excluded.
#[verifier::external_body]
fn green_line(s: &str) -> (r: String)
    requires
        forall|i: int| 0 <= i < s@.len() ==> s@[i] != '\u{1B}',
    ensures
        green_rendering(s@, r@),
{
    format!("{}", colored::Colorize::green(s))
}

/// Builds the echo line for the first user-supplied argument, the argument's
/// text taken exactly as given: no trimming, no case change.
pub fn echo_line(arg: &String) -> (r: String)
    ensures
        r@ == echo_text(arg@),
{
    String::from_str("The first argument is ").concat(arg.as_str())
}

/// Builds the whole output around an already rendered greeting line: the
/// echo line exactly when at least one user-supplied argument is present,
/// then the banner in its fixed order.
pub fn output_lines_with(greeting_line: String, args: &Vec<String>) -> (r: Vec<String>)
    ensures
        r.deep_view() == output_text(args.deep_view(), greeting_line@),
{
    let ghost g: Seq<char> = greeting_line@;
    let mut r: Vec<String> = Vec::new();
    if args.len() > 1 {
        r.push(echo_line(&args[1]));
    }
    let mut banner: Vec<String> = banner_lines(greeting_line);
    r.append(&mut banner);
    proof {
        assert(r.deep_view() =~= output_text(args.deep_view(), g));
    }
    r
}

/// Renders the greeting line in green.
fn rendered_greeting() -> (r: String)
    ensures
        green_rendering(greeting_text(), r@),
{
    proof {
        reveal_strlit("Welcome to CleanCodersGIT!");
    }
    green_line("Welcome to CleanCodersGIT!")
}

/// Everything the program writes, line by line, for the given invocation
/// arguments: the rendered greeting stands at `greeting_index` and reads as
/// some green rendering of the greeting text; every other line is pinned
/// exactly by `output_text`.
pub fn output_lines(args: &Vec<String>) -> (r: Vec<String>)
    ensures
        green_rendering(greeting_text(), r.deep_view()[greeting_index(args.deep_view())]),
        r.deep_view() == output_text(args.deep_view(), r.deep_view()[greeting_index(args.deep_view())]),
{
    let greeting: String = rendered_greeting();
    output_lines_with(greeting, args)
}

/// Whether a line reads as an echo line: the echo prefix followed by
/// anything.
pub open spec fn is_echo_line(line: Seq<char>) -> bool {
    line.len() >= echo_prefix_text().len() && line.subrange(
        0,
        echo_prefix_text().len() as int,
    ) == echo_prefix_text()
}

/// With no user-supplied argument the output is the banner in full, and no
/// line of it reads as an echo line.
pub proof fn lemma_no_argument_no_echo(args: Seq<Seq<char>>, greeting_line: Seq<char>)
    requires
        args.len() <= 1,
        green_rendering(greeting_text(), greeting_line),
    ensures
        output_text(args, greeting_line) == banner_text(greeting_line),
        forall|i: int|
            0 <= i < output_text(args, greeting_line).len() ==> !is_echo_line(
                #[trigger] output_text(args, greeting_line)[i],
            ),
{
    reveal_strlit("The first argument is ");
    reveal_strlit("Welcome to CleanCodersGIT!");
    reveal_strlit("\u{1B}[32m");
    reveal_strlit("\u{1B}[0m");
    reveal_strlit("");
    reveal_strlit("Usage: ./ccg [options] [--] [file...]");
    reveal_strlit("Arguments:");
    reveal_strlit("  -h, --help");
    reveal_strlit("    Display this usage message and exit.");
    reveal_strlit("  -h <command>, --help <command>");
    reveal_strlit("    Shows useful informateion about the given command.");
    let b = banner_text(greeting_line);
    assert(greeting_line[0] != 'T');
    assert forall|i: int| 0 <= i < b.len() implies !is_echo_line(#[trigger] b[i]) by {
        if is_echo_line(b[i]) {
            assert(b[i].subrange(0, echo_prefix_text().len() as int)[0] == b[i][0]);
            assert(b[i][0] == 'T');
        }
    }
}

/// With at least one user-supplied argument the first output line echoes
/// that argument exactly as given — no trimming, no case change — and the
/// banner follows, unchanged, from the second line on.
pub proof fn lemma_argument_echoed_first(args: Seq<Seq<char>>, greeting_line: Seq<char>)
    requires
        args.len() > 1,
    ensures
        output_text(args, greeting_line).len() == 11,
        output_text(args, greeting_line)[0] == echo_text(args[1]),
        is_echo_line(output_text(args, greeting_line)[0]),
        output_text(args, greeting_line).subrange(1, 11) == banner_text(greeting_line),
{
    assert(output_text(args, greeting_line).subrange(1, 11) =~= banner_text(greeting_line));
    assert(echo_text(args[1]).subrange(0, echo_prefix_text().len() as int) =~= echo_prefix_text());
}

/// The banner's line ordering is fixed: greeting line, blank line, synopsis
/// line, blank line, arguments header, then the two help-option
/// descriptions, each followed by its detail line, with a blank line
/// between them.
pub proof fn lemma_banner_order(greeting_line: Seq<char>)
    ensures
        banner_text(greeting_line).len() == 10,
        banner_text(greeting_line)[0] == greeting_line,
        banner_text(greeting_line)[1] == blank_text(),
        banner_text(greeting_line)[2] == synopsis_text(),
        banner_text(greeting_line)[3] == blank_text(),
        banner_text(greeting_line)[4] == arguments_header_text(),
        banner_text(greeting_line)[5] == help_flags_text(),
        banner_text(greeting_line)[6] == help_flags_detail_text(),
        banner_text(greeting_line)[7] == blank_text(),
        banner_text(greeting_line)[8] == help_command_text(),
        banner_text(greeting_line)[9] == help_command_detail_text(),
{
}

} // verus!
