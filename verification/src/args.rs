//! The argument parser: a single pass over raw command-line tokens that
//! classifies flags and their operands, enforces mutual exclusivity among
//! sub-commands, and produces one structured command or a parse error.
//!
//! A token is carried as `Option<String>`: `Some` for a token that is a
//! plain string, `None` for one that is not (malformed encoding). The first
//! token is the program name and is discarded unconditionally.

use vstd::prelude::*;
use vstd::string::StringExecFns;
use crate::target::{str_eq, AppleTarget};

verus! {

/// The sub-operation a command requests. Exactly one is selected per parse;
/// when no sub-command flag is recognized, the default is `Run`, carrying
/// every token that was not consumed as a flag operand.
#[derive(Debug, PartialEq, Eq)]
pub enum SubArgument {
    ShowSdkPath,
    ShowSdkVersion,
    ShowSdkBuildVersion,
    ShowSdkPlatformPath,
    ShowSdkPlatformVersion,
    Find { tool_name: String },
    Run { arguments: Vec<String> },
}

/// The mathematical abstraction of a `SubArgument`, with strings as
/// character sequences.
pub enum SubArgumentView {
    ShowSdkPath,
    ShowSdkVersion,
    ShowSdkBuildVersion,
    ShowSdkPlatformPath,
    ShowSdkPlatformVersion,
    Find { tool_name: Seq<char> },
    Run { arguments: Seq<Seq<char>> },
}

impl View for SubArgument {
    type V = SubArgumentView;

    open spec fn view(&self) -> SubArgumentView {
        match self {
            SubArgument::ShowSdkPath => SubArgumentView::ShowSdkPath,
            SubArgument::ShowSdkVersion => SubArgumentView::ShowSdkVersion,
            SubArgument::ShowSdkBuildVersion => SubArgumentView::ShowSdkBuildVersion,
            SubArgument::ShowSdkPlatformPath => SubArgumentView::ShowSdkPlatformPath,
            SubArgument::ShowSdkPlatformVersion => SubArgumentView::ShowSdkPlatformVersion,
            SubArgument::Find { tool_name } => SubArgumentView::Find { tool_name: tool_name@ },
            SubArgument::Run { arguments } => SubArgumentView::Run {
                arguments: arguments.deep_view(),
            },
        }
    }
}

impl DeepView for SubArgument {
    type V = SubArgumentView;

    open spec fn deep_view(&self) -> SubArgumentView {
        self.view()
    }
}

/// The result of a successful parse: an optional SDK target and the selected
/// sub-operation.
#[derive(Debug, PartialEq, Eq)]
pub struct Argument {
    pub sdk_target: Option<AppleTarget>,
    pub sub_argument: SubArgument,
}

/// The mathematical abstraction of an `Argument`.
pub struct ArgumentView {
    pub sdk_target: Option<AppleTarget>,
    pub sub_argument: SubArgumentView,
}

impl View for Argument {
    type V = ArgumentView;

    open spec fn view(&self) -> ArgumentView {
        ArgumentView { sdk_target: self.sdk_target, sub_argument: self.sub_argument@ }
    }
}

/// Why a parse failed. Every failure is immediate: the first offending token
/// aborts the scan.
#[derive(Debug, PartialEq, Eq)]
pub enum ParseError {
    /// An SDK flag had no following token, the following token was not a
    /// plain string, or it named no target in the vocabulary.
    MissingOrInvalidSdkName,
    /// A tool-lookup flag had no following plain-string token.
    MissingToolName,
    /// A sub-command flag arrived after a sub-command had already been
    /// selected; the field holds the offending flag's text.
    ConflictingArgument { flag: String },
}

/// The mathematical abstraction of a `ParseError`.
pub enum ParseErrorView {
    MissingOrInvalidSdkName,
    MissingToolName,
    ConflictingArgument { flag: Seq<char> },
}

impl View for ParseError {
    type V = ParseErrorView;

    open spec fn view(&self) -> ParseErrorView {
        match self {
            ParseError::MissingOrInvalidSdkName => ParseErrorView::MissingOrInvalidSdkName,
            ParseError::MissingToolName => ParseErrorView::MissingToolName,
            ParseError::ConflictingArgument { flag } => ParseErrorView::ConflictingArgument {
                flag: flag@,
            },
        }
    }
}

/// The error's one-line human-readable rendering.
pub open spec fn spec_message(e: ParseErrorView) -> Seq<char> {
    match e {
        ParseErrorView::MissingOrInvalidSdkName => "Missing sdk name after --sdk or invalid target"@,
        ParseErrorView::MissingToolName => "Missing tool name after --find"@,
        ParseErrorView::ConflictingArgument { flag } => "Conflicting argument "@ + flag
            + " found"@,
    }
}

impl ParseError {
    /// Renders the error as the one-line message a user sees.
    pub fn message(&self) -> (r: String)
        ensures
            r@ == spec_message(self@),
    {
        match self {
            ParseError::MissingOrInvalidSdkName => String::from_str(
                "Missing sdk name after --sdk or invalid target",
            ),
            ParseError::MissingToolName => String::from_str("Missing tool name after --find"),
            ParseError::ConflictingArgument { flag } => String::from_str(
                "Conflicting argument ",
            ).concat(flag.as_str()).concat(" found"),
        }
    }
}

/// Which query sub-command, if any, a token selects. Matching is exact
/// against the five fixed query flags.
pub open spec fn spec_query_flag(s: Seq<char>) -> Option<SubArgumentView> {
    if s == "--show-sdk-path"@ {
        Some(SubArgumentView::ShowSdkPath)
    } else if s == "--show-sdk-version"@ {
        Some(SubArgumentView::ShowSdkVersion)
    } else if s == "--show-sdk-build-version"@ {
        Some(SubArgumentView::ShowSdkBuildVersion)
    } else if s == "--show-sdk-platform-path"@ {
        Some(SubArgumentView::ShowSdkPlatformPath)
    } else if s == "--show-sdk-platform-version"@ {
        Some(SubArgumentView::ShowSdkPlatformVersion)
    } else {
        None
    }
}

impl SubArgument {
    /// Recognizes the five fixed query flags.
    pub fn try_from(value: &str) -> (r: Result<SubArgument, ()>)
        ensures
            match r {
                Ok(q) => spec_query_flag(value@) == Some(q@),
                Err(_) => spec_query_flag(value@) is None,
            },
    {
        if str_eq(value, "--show-sdk-path") {
            Ok(SubArgument::ShowSdkPath)
        } else if str_eq(value, "--show-sdk-version") {
            Ok(SubArgument::ShowSdkVersion)
        } else if str_eq(value, "--show-sdk-build-version") {
            Ok(SubArgument::ShowSdkBuildVersion)
        } else if str_eq(value, "--show-sdk-platform-path") {
            Ok(SubArgument::ShowSdkPlatformPath)
        } else if str_eq(value, "--show-sdk-platform-version") {
            Ok(SubArgument::ShowSdkPlatformVersion)
        } else {
            Err(())
        }
    }
}

/// The parsing state machine, as a function of the token sequence, the next
/// position, and the state carried across the scan: the SDK target seen so
/// far, the selected sub-command, whether a run flag was seen, and the
/// accumulated unconsumed tokens.
///
/// The transition rules, applied to the token at position `i`:
/// - a token that is not a plain string is skipped silently;
/// - an SDK flag consumes the next token as an operand and resolves it,
///   the last occurrence winning; a missing or unresolvable operand aborts;
/// - a tool-lookup flag consumes the next token as the tool name; the name
///   missing aborts, as does a sub-command already being selected;
/// - a run flag selects the run sub-command, consuming no operand;
/// - any other token that matches a query flag selects that sub-command,
///   under the same conflict rule, and the token text is also appended to
///   the accumulated tokens; a token matching nothing is appended alone.
///
/// Past the last token, the result is the selected sub-command, or `Run`
/// over the accumulated tokens when none was selected.
pub open spec fn spec_parse_from(
    tokens: Seq<Option<Seq<char>>>,
    i: int,
    sdk: Option<AppleTarget>,
    sub: Option<SubArgumentView>,
    run_seen: bool,
    run_args: Seq<Seq<char>>,
) -> Result<ArgumentView, ParseErrorView>
    decreases tokens.len() - i,
{
    if i >= tokens.len() {
        Ok(
            ArgumentView {
                sdk_target: sdk,
                sub_argument: match sub {
                    Some(s) => s,
                    None => SubArgumentView::Run { arguments: run_args },
                },
            },
        )
    } else {
        match tokens[i] {
            None => spec_parse_from(tokens, i + 1, sdk, sub, run_seen, run_args),
            Some(t) => {
                if t == "--sdk"@ || t == "-sdk"@ {
                    if i + 1 < tokens.len() && tokens[i + 1] is Some && AppleTarget::spec_resolve(
                        tokens[i + 1]->Some_0,
                    ) is Some {
                        spec_parse_from(
                            tokens,
                            i + 2,
                            AppleTarget::spec_resolve(tokens[i + 1]->Some_0),
                            sub,
                            run_seen,
                            run_args,
                        )
                    } else {
                        Err(ParseErrorView::MissingOrInvalidSdkName)
                    }
                } else if t == "--find"@ {
                    if i + 1 < tokens.len() && tokens[i + 1] is Some {
                        if sub is Some || run_seen {
                            Err(ParseErrorView::ConflictingArgument { flag: "--find"@ })
                        } else {
                            spec_parse_from(
                                tokens,
                                i + 2,
                                sdk,
                                Some(SubArgumentView::Find { tool_name: tokens[i + 1]->Some_0 }),
                                run_seen,
                                run_args,
                            )
                        }
                    } else {
                        Err(ParseErrorView::MissingToolName)
                    }
                } else if t == "--run"@ {
                    if sub is Some || run_seen {
                        Err(ParseErrorView::ConflictingArgument { flag: "--run"@ })
                    } else {
                        spec_parse_from(tokens, i + 1, sdk, sub, true, run_args)
                    }
                } else {
                    match spec_query_flag(t) {
                        Some(q) => {
                            if sub is Some || run_seen {
                                Err(ParseErrorView::ConflictingArgument { flag: t })
                            } else {
                                spec_parse_from(
                                    tokens,
                                    i + 1,
                                    sdk,
                                    Some(q),
                                    run_seen,
                                    run_args.push(t),
                                )
                            }
                        },
                        None => spec_parse_from(
                            tokens,
                            i + 1,
                            sdk,
                            sub,
                            run_seen,
                            run_args.push(t),
                        ),
                    }
                }
            },
        }
    }
}

/// What parsing a whole token sequence yields: the scan of the state
/// machine from the second token (the first is the program name, discarded
/// unconditionally) out of the empty state.
pub open spec fn spec_parse(tokens: Seq<Option<Seq<char>>>) -> Result<
    ArgumentView,
    ParseErrorView,
> {
    spec_parse_from(tokens, 1, None, None, false, Seq::empty())
}

/// Parses a raw token sequence into one structured command or a parse
/// error, exactly as the parsing state machine `spec_parse` describes.
pub fn parse_args(tokens: &Vec<Option<String>>) -> (result: Result<Argument, ParseError>)
    ensures
        match result {
            Ok(arg) => spec_parse(tokens.deep_view()) == Ok::<ArgumentView, ParseErrorView>(arg@),
            Err(e) => spec_parse(tokens.deep_view()) == Err::<ArgumentView, ParseErrorView>(e@),
        },
{
    let ghost toks = tokens.deep_view();
    let mut i: usize = 1;
    let mut sdk_target: Option<AppleTarget> = None;
    let mut sub_argument: Option<SubArgument> = None;
    let mut is_run_command: bool = false;
    let mut run_arguments: Vec<String> = Vec::new();

    proof {
        assert(run_arguments.deep_view() =~= Seq::<Seq<char>>::empty());
    }
    while i < tokens.len()
        invariant
            toks == tokens.deep_view(),
            1 <= i,
            spec_parse_from(
                toks,
                i as int,
                sdk_target,
                sub_argument.deep_view(),
                is_run_command,
                run_arguments.deep_view(),
            ) == spec_parse(toks),
        decreases tokens.len() - i,
    {
        proof {
            assert(toks[i as int] == tokens@[i as int].deep_view());
        }
        match &tokens[i] {
            None => {
                i = i + 1;
            },
            Some(s) => {
                if str_eq(s.as_str(), "--sdk") || str_eq(s.as_str(), "-sdk") {
                    if i + 1 < tokens.len() {
                        proof {
                            assert(toks[i as int + 1] == tokens@[i as int + 1].deep_view());
                        }
                        match &tokens[i + 1] {
                            Some(name) => {
                                match AppleTarget::try_from(name.as_str()) {
                                    Ok(t) => {
                                        sdk_target = Some(t);
                                        i = i + 2;
                                    },
                                    Err(_) => {
                                        return Err(ParseError::MissingOrInvalidSdkName);
                                    },
                                }
                            },
                            None => {
                                return Err(ParseError::MissingOrInvalidSdkName);
                            },
                        }
                    } else {
                        return Err(ParseError::MissingOrInvalidSdkName);
                    }
                } else if str_eq(s.as_str(), "--find") {
                    if i + 1 < tokens.len() {
                        proof {
                            assert(toks[i as int + 1] == tokens@[i as int + 1].deep_view());
                        }
                        match &tokens[i + 1] {
                            Some(name) => {
                                if sub_argument.is_some() || is_run_command {
                                    return Err(
                                        ParseError::ConflictingArgument {
                                            flag: String::from_str("--find"),
                                        },
                                    );
                                }
                                sub_argument = Some(
                                    SubArgument::Find { tool_name: name.clone() },
                                );
                                i = i + 2;
                            },
                            None => {
                                return Err(ParseError::MissingToolName);
                            },
                        }
                    } else {
                        return Err(ParseError::MissingToolName);
                    }
                } else if str_eq(s.as_str(), "--run") {
                    if sub_argument.is_some() || is_run_command {
                        return Err(
                            ParseError::ConflictingArgument { flag: String::from_str("--run") },
                        );
                    }
                    is_run_command = true;
                    i = i + 1;
                } else {
                    let ghost old_run_args = run_arguments.deep_view();
                    match SubArgument::try_from(s.as_str()) {
                        Ok(q) => {
                            if sub_argument.is_some() || is_run_command {
                                return Err(ParseError::ConflictingArgument { flag: s.clone() });
                            }
                            sub_argument = Some(q);
                            run_arguments.push(s.clone());
                        },
                        Err(_) => {
                            run_arguments.push(s.clone());
                        },
                    }
                    proof {
                        assert(run_arguments.deep_view() =~= old_run_args.push(s@));
                    }
                    i = i + 1;
                }
            },
        }
    }
    match sub_argument {
        Some(sub) => Ok(Argument { sdk_target, sub_argument: sub }),
        None => Ok(
            Argument { sdk_target, sub_argument: SubArgument::Run { arguments: run_arguments } },
        ),
    }
}

} // verus!
