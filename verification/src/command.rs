//! From the configured editor command line to the program and the arguments
//! that the session launches.

use vstd::prelude::*;

verus! {

/// The words of `line` under shell-style splitting, with quoting and escaping
/// respected; `None` where the line is malformed (an unclosed quote, a
/// trailing backslash).
pub uninterp spec fn shlex_tokens(line: Seq<char>) -> Option<Seq<Seq<char>>>;

/// Calls `shlex::split`. Its result is taken as the meaning of
/// [`shlex_tokens`]: the words in order, or `None` for a malformed line.
#[verifier::external_body]
pub(crate) fn shlex_split(line: &str) -> (r: Option<Vec<String>>)
    ensures
        match r {
            Some(words) => shlex_tokens(line@) == Some(words.deep_view()),
            None => shlex_tokens(line@) is None,
        },
{
    shlex::split(line)
}

/// The program to run and the arguments that precede the scratch file's path.
#[derive(Debug, PartialEq, Eq)]
pub struct EditorCommand {
    pub program: String,
    pub args: Vec<String>,
}

/// An [`EditorCommand`] as a mathematical value.
pub struct EditorCommandView {
    pub program: Seq<char>,
    pub args: Seq<Seq<char>>,
}

impl View for EditorCommand {
    type V = EditorCommandView;

    open spec fn view(&self) -> EditorCommandView {
        EditorCommandView { program: self.program@, args: self.args.deep_view() }
    }
}

/// The editor that is run where none is configured.
pub open spec fn default_editor_spec() -> Seq<char> {
    "vi"@
}

/// The command line in force: the configured one, or the default.
pub open spec fn effective_line_spec(configured: Option<Seq<char>>) -> Seq<char> {
    match configured {
        Some(line) => line,
        None => default_editor_spec(),
    }
}

/// The command for the command line `line` that splits into `tokens`: the
/// first word is the program and the others are its arguments. Where the line
/// is malformed or holds no word, the whole line is the program's name.
pub open spec fn command_spec(
    line: Seq<char>,
    tokens: Option<Seq<Seq<char>>>,
) -> EditorCommandView {
    match tokens {
        Some(words) => if words.len() > 0 {
            EditorCommandView { program: words[0], args: words.drop_first() }
        } else {
            EditorCommandView { program: line, args: Seq::empty() }
        },
        None => EditorCommandView { program: line, args: Seq::empty() },
    }
}

/// The command for what is configured: the command line in force, split into
/// words.
pub open spec fn resolve_spec(configured: Option<Seq<char>>) -> EditorCommandView {
    let line = effective_line_spec(configured);
    command_spec(line, shlex_tokens(line))
}

impl EditorCommand {
    /// Builds the command from the command line and the words it was split
    /// into.
    pub fn from_tokens(line: &str, tokens: Option<Vec<String>>) -> (r: EditorCommand)
        ensures
            r@ == command_spec(
                line@,
                match tokens {
                    Some(words) => Some(words.deep_view()),
                    None => None,
                },
            ),
    {
        match tokens {
            Some(words) => {
                if words.len() > 0 {
                    let mut rest = words;
                    let ghost all = rest.deep_view();
                    let program = rest.remove(0);
                    assert(rest.deep_view() =~= all.drop_first());
                    assert(program@ == all[0]);
                    EditorCommand { program, args: rest }
                } else {
                    let r = EditorCommand { program: line.to_owned(), args: Vec::new() };
                    assert(r.args.deep_view() =~= Seq::<Seq<char>>::empty());
                    r
                }
            },
            None => {
                let r = EditorCommand { program: line.to_owned(), args: Vec::new() };
                assert(r.args.deep_view() =~= Seq::<Seq<char>>::empty());
                r
            },
        }
    }

    /// Resolves the configured editor command line, or the default editor
    /// where nothing is configured, into a command.
    pub fn resolve(configured: Option<&str>) -> (r: EditorCommand)
        ensures
            r@ == resolve_spec(
                match configured {
                    Some(line) => Some(line@),
                    None => None,
                },
            ),
    {
        let line: &str = match configured {
            Some(line) => line,
            None => "vi",
        };
        let tokens = shlex_split(line);
        EditorCommand::from_tokens(line, tokens)
    }

    /// Everything that follows the program's name at launch: the command's own
    /// arguments, then the scratch file's path as the last one.
    pub fn launch_arguments(&self, scratch_path: &str) -> (r: Vec<String>)
        ensures
            r.deep_view() == self@.args.push(scratch_path@),
    {
        let mut out: Vec<String> = Vec::new();
        let n: usize = self.args.len();
        let mut i: usize = 0;
        while i < n
            invariant
                n == self.args.len(),
                i <= n,
                out.len() == i,
                forall|k: int| 0 <= k < i ==> out[k]@ == self.args[k]@,
            decreases n - i,
        {
            out.push(self.args[i].clone());
            i += 1;
        }
        out.push(scratch_path.to_owned());
        assert(out.deep_view() =~= self@.args.push(scratch_path@));
        out
    }
}

} // verus!
