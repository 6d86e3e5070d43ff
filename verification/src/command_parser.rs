//! Splitting a launch command line into environment assignments, the
//! executable, its working directory and its arguments.

use crate::env_map::EnvMap;
use crate::paths::{parent_of, path_parent};
use crate::text::{
    chars_of, find_char_exec, is_text, lemma_rows_push, lemma_texts_push, rows,
    slice_of, split_once, string_of, texts,
};
use vstd::prelude::*;

verus! {

/// A command line, taken apart.
#[derive(Debug, Clone)]
pub struct ParsedCommand {
    pub env_vars: EnvMap,
    pub executable: String,
    pub working_dir: String,
    pub arguments: Vec<String>,
}

/// What a `ParsedCommand` holds.
pub struct ParsedCommandView {
    pub env_vars: Map<Seq<char>, Seq<char>>,
    pub executable: Seq<char>,
    pub working_dir: Seq<char>,
    pub arguments: Seq<Seq<char>>,
}

impl View for ParsedCommand {
    type V = ParsedCommandView;

    open spec fn view(&self) -> ParsedCommandView {
        ParsedCommandView {
            env_vars: self.env_vars@,
            executable: self.executable@,
            working_dir: self.working_dir@,
            arguments: texts(self.arguments@),
        }
    }
}

/// Where the tokenizer stands after some characters.
pub struct ScanState {
    /// The tokens that are complete.
    pub tokens: Seq<Seq<char>>,
    /// The token being read.
    pub current: Seq<char>,
    pub in_single_quote: bool,
    pub in_double_quote: bool,
    /// The last character was a backslash that escapes the next one.
    pub escaped: bool,
}

/// The character that a backslash and `c` stand for.
pub open spec fn unescape(c: char) -> char {
    if c == 'n' {
        '\n'
    } else if c == 't' {
        '\t'
    } else if c == 'r' {
        '\r'
    } else {
        c
    }
}

/// The tokenizer before the first character.
pub open spec fn scan_start() -> ScanState {
    ScanState {
        tokens: Seq::empty(),
        current: Seq::empty(),
        in_single_quote: false,
        in_double_quote: false,
        escaped: false,
    }
}

/// One character read.
///
/// A quote opens or closes a quoted stretch unless it stands inside the
/// other kind of quote. Outside single quotes a backslash escapes the next
/// character. A space or a tab outside quotes ends the token, if one was
/// begun. Every other character belongs to the token.
pub open spec fn scan_step(st: ScanState, c: char) -> ScanState {
    if st.escaped {
        ScanState { current: st.current.push(unescape(c)), escaped: false, ..st }
    } else if c == '\'' && !st.in_double_quote {
        ScanState { in_single_quote: !st.in_single_quote, ..st }
    } else if c == '"' && !st.in_single_quote {
        ScanState { in_double_quote: !st.in_double_quote, ..st }
    } else if c == '\\' && !st.in_single_quote {
        ScanState { escaped: true, ..st }
    } else if (c == ' ' || c == '\t') && !st.in_single_quote && !st.in_double_quote {
        if st.current.len() > 0 {
            ScanState { tokens: st.tokens.push(st.current), current: Seq::empty(), ..st }
        } else {
            st
        }
    } else {
        ScanState { current: st.current.push(c), ..st }
    }
}

/// Where the tokenizer stands after all of `s`.
pub open spec fn scan(s: Seq<char>) -> ScanState
    decreases s.len(),
{
    if s.len() == 0 {
        scan_start()
    } else {
        scan_step(scan(s.drop_last()), s.last())
    }
}

/// The tokens of a command line, or why it has none: a quote left open.
pub open spec fn tokens_of(s: Seq<char>) -> Result<Seq<Seq<char>>, Seq<char>> {
    let st = scan(s);
    if st.in_single_quote {
        Err("Unclosed single quote"@)
    } else if st.in_double_quote {
        Err("Unclosed double quote"@)
    } else if st.current.len() > 0 {
        Ok(st.tokens.push(st.current))
    } else {
        Ok(st.tokens)
    }
}

/// No token is empty: a token is completed only once it holds a
/// character.
pub proof fn law_tokens_hold_text(s: Seq<char>)
    ensures
        forall|i: int| 0 <= i < scan(s).tokens.len() ==> (#[trigger] scan(s).tokens[i]).len() > 0,
        tokens_of(s) matches Ok(tokens) ==> forall|i: int|
            0 <= i < tokens.len() ==> (#[trigger] tokens[i]).len() > 0,
    decreases s.len(),
{
    if s.len() > 0 {
        law_tokens_hold_text(s.drop_last());
        let before = scan(s.drop_last());
        let after = scan(s);
        assert forall|i: int| 0 <= i < after.tokens.len() implies (#[trigger] after.tokens[i]).len()
            > 0 by {
            if i < before.tokens.len() {
                assert(after.tokens[i] == before.tokens[i]);
            }
        }
    }
}

/// Without quotes and backslashes, the tokens are the stretches of the
/// command between spaces and tabs: no token holds a space or a tab.
pub proof fn law_plain_tokens_have_no_blanks(s: Seq<char>)
    requires
        forall|i: int| 0 <= i < s.len() ==> s[i] != '\'' && s[i] != '"' && s[i] != '\\',
    ensures
        !scan(s).in_single_quote && !scan(s).in_double_quote && !scan(s).escaped,
        forall|i: int, j: int|
            0 <= i < scan(s).tokens.len() && 0 <= j < scan(s).tokens[i].len() ==> (
            #[trigger] scan(s).tokens[i][j]) != ' ' && scan(s).tokens[i][j] != '\t',
        forall|j: int|
            0 <= j < scan(s).current.len() ==> (#[trigger] scan(s).current[j]) != ' '
                && scan(s).current[j] != '\t',
    decreases s.len(),
{
    if s.len() > 0 {
        let head = s.drop_last();
        assert forall|i: int| 0 <= i < head.len() implies head[i] != '\'' && head[i] != '"'
            && head[i] != '\\' by {
            assert(head[i] == s[i]);
        }
        law_plain_tokens_have_no_blanks(head);
        let before = scan(head);
        let after = scan(s);
        let c = s.last();
        assert(c == s[s.len() - 1]);
        assert forall|i: int, j: int|
            0 <= i < after.tokens.len() && 0 <= j < after.tokens[i].len() implies (
        #[trigger] after.tokens[i][j]) != ' ' && after.tokens[i][j] != '\t' by {
            if i < before.tokens.len() {
                assert(after.tokens[i] == before.tokens[i]);
                assert(before.tokens[i][j] != ' ' && before.tokens[i][j] != '\t');
            } else {
                assert(after.tokens[i] == before.current);
                assert(before.current[j] != ' ' && before.current[j] != '\t');
            }
        }
        assert forall|j: int| 0 <= j < after.current.len() implies (#[trigger] after.current[j])
            != ' ' && after.current[j] != '\t' by {
            if j < before.current.len() {
                assert(before.current[j] != ' ' && before.current[j] != '\t');
            }
        }
    }
}

/// The tokens of `command` as character vectors.
fn tokenize_chars(command: &Vec<char>) -> (r: Result<Vec<Vec<char>>, String>)
    ensures
        match r {
            Ok(t) => tokens_of(command@) == Ok::<Seq<Seq<char>>, Seq<char>>(rows(t@)),
            Err(e) => tokens_of(command@) == Err::<Seq<Seq<char>>, Seq<char>>(e@),
        },
{
    let n = command.len();
    let mut tokens: Vec<Vec<char>> = Vec::new();
    let mut current: Vec<char> = Vec::new();
    let mut in_single_quote = false;
    let mut in_double_quote = false;
    let mut escaped = false;
    let mut i: usize = 0;
    assert(command@.take(0) =~= Seq::<char>::empty());
    assert(rows(tokens@) =~= Seq::<Seq<char>>::empty());
    while i < n
        invariant
            n == command.len(),
            i <= n,
            scan(command@.take(i as int)) == (ScanState {
                tokens: rows(tokens@),
                current: current@,
                in_single_quote,
                in_double_quote,
                escaped,
            }),
        decreases n - i,
    {
        let c = command[i];
        proof {
            let next = command@.take(i + 1);
            assert(next.drop_last() =~= command@.take(i as int));
            assert(next.last() == c);
        }
        if escaped {
            let plain = if c == 'n' {
                '\n'
            } else if c == 't' {
                '\t'
            } else if c == 'r' {
                '\r'
            } else {
                c
            };
            current.push(plain);
            escaped = false;
        } else if c == '\'' && !in_double_quote {
            in_single_quote = !in_single_quote;
        } else if c == '"' && !in_single_quote {
            in_double_quote = !in_double_quote;
        } else if c == '\\' && !in_single_quote {
            escaped = true;
        } else if (c == ' ' || c == '\t') && !in_single_quote && !in_double_quote {
            if current.len() > 0 {
                proof {
                    lemma_rows_push(tokens@, current);
                }
                tokens.push(current);
                current = Vec::new();
            }
        } else {
            current.push(c);
        }
        i = i + 1;
    }
    assert(command@.take(n as int) =~= command@);
    if in_single_quote {
        return Err("Unclosed single quote".to_owned());
    }
    if in_double_quote {
        return Err("Unclosed double quote".to_owned());
    }
    if current.len() > 0 {
        proof {
            lemma_rows_push(tokens@, current);
        }
        tokens.push(current);
    }
    Ok(tokens)
}

/// The strings that hold the texts of `v`.
fn strings_of(v: &Vec<Vec<char>>, from: usize) -> (r: Vec<String>)
    requires
        from <= v.len(),
    ensures
        texts(r@) == rows(v@).skip(from as int),
{
    let mut r: Vec<String> = Vec::new();
    let mut i: usize = from;
    assert(texts(r@) =~= rows(v@).subrange(from as int, i as int));
    while i < v.len()
        invariant
            from <= i <= v.len(),
            texts(r@) == rows(v@).subrange(from as int, i as int),
        decreases v.len() - i,
    {
        let s = string_of(&v[i]);
        proof {
            lemma_texts_push(r@, s);
            assert(rows(v@).subrange(from as int, i + 1) =~= rows(v@).subrange(
                from as int,
                i as int,
            ).push(s@));
        }
        r.push(s);
        i = i + 1;
    }
    assert(rows(v@).subrange(from as int, v.len() as int) =~= rows(v@).skip(from as int));
    r
}

/// Splits a command line into tokens.
///
/// Tokens are separated by spaces and tabs. Single and double quotes keep
/// separators inside a token; a backslash outside single quotes escapes the
/// character after it. A quote left open is an error.
pub fn tokenize_command(command: &str) -> (r: Result<Vec<String>, String>)
    ensures
        match r {
            Ok(t) => tokens_of(command@) == Ok::<Seq<Seq<char>>, Seq<char>>(texts(t@)),
            Err(e) => tokens_of(command@) == Err::<Seq<Seq<char>>, Seq<char>>(e@),
        },
{
    let chars = chars_of(command);
    match tokenize_chars(&chars) {
        Ok(tokens) => {
            let r = strings_of(&tokens, 0);
            assert(rows(tokens@).skip(0) =~= rows(tokens@));
            Ok(r)
        },
        Err(e) => Err(e),
    }
}

/// The number of tokens at the front, from `i` on, that are assignments:
/// tokens that hold a `=`.
pub open spec fn assignment_end(tokens: Seq<Seq<char>>, i: int) -> int
    decreases tokens.len() - i,
{
    if 0 <= i < tokens.len() && tokens[i].contains('=') {
        assignment_end(tokens, i + 1)
    } else {
        i
    }
}

/// The name under which the working directory is held while a command is
/// being parsed.
pub open spec fn cwd_marker() -> Seq<char> {
    "_INTERNAL_CWD"@
}

/// The variables that the first `k` tokens set. `CWD` is not a variable of
/// the command: its value is kept under the marker.
pub open spec fn assigned(tokens: Seq<Seq<char>>, k: int) -> Map<Seq<char>, Seq<char>>
    decreases k,
{
    if k <= 0 {
        Map::empty()
    } else {
        let pair = split_once(tokens[k - 1], '=').unwrap();
        if pair.0 == "CWD"@ {
            assigned(tokens, k - 1).insert(cwd_marker(), pair.1)
        } else {
            assigned(tokens, k - 1).insert(pair.0, pair.1)
        }
    }
}

/// The working directory of a command: the one given with `CWD`; else the
/// parent of the executable where that is written with a `/` and has a
/// parent; else the directory that the caller runs in.
pub open spec fn working_directory(
    cwd: Option<Seq<char>>,
    executable: Seq<char>,
    parent: Option<Seq<char>>,
    current_dir: Result<Seq<char>, Seq<char>>,
) -> Result<Seq<char>, Seq<char>> {
    match cwd {
        Some(dir) => Ok(dir),
        None => if executable.contains('/') && parent.is_some() {
            Ok(parent.unwrap())
        } else {
            match current_dir {
                Ok(dir) => Ok(dir),
                Err(e) => Err("Failed to get current directory: "@ + e),
            }
        },
    }
}

/// What a command line is parsed to, or the message of the error.
pub open spec fn parsed(command: Seq<char>, current_dir: Result<Seq<char>, Seq<char>>) -> Result<
    ParsedCommandView,
    Seq<char>,
> {
    match tokens_of(command) {
        Err(e) => Err(e),
        Ok(tokens) => {
            let k = assignment_end(tokens, 0);
            if tokens.len() == 0 {
                Err("Empty command"@)
            } else if k >= tokens.len() {
                Err("No executable found in command"@)
            } else {
                let env = assigned(tokens, k);
                let cwd = if env.contains_key(cwd_marker()) {
                    Some(env[cwd_marker()])
                } else {
                    None
                };
                match working_directory(cwd, tokens[k], path_parent(tokens[k]), current_dir) {
                    Err(e) => Err(e),
                    Ok(dir) => Ok(
                        ParsedCommandView {
                            env_vars: env.remove(cwd_marker()),
                            executable: tokens[k],
                            working_dir: dir,
                            arguments: tokens.skip(k + 1),
                        },
                    ),
                }
            }
        },
    }
}

/// The text of a result, on either side.
pub open spec fn result_text(r: Result<String, String>) -> Result<Seq<char>, Seq<char>> {
    match r {
        Ok(s) => Ok(s@),
        Err(e) => Err(e@),
    }
}

/// The text of an optional string.
pub open spec fn option_text(o: Option<String>) -> Option<Seq<char>> {
    match o {
        Some(s) => Some(s@),
        None => None,
    }
}

/// Chooses the working directory of a command. `cwd` is the value given
/// with `CWD`, `parent` the parent path of the executable, and
/// `current_dir` the directory that the caller runs in, or why it could not
/// be had.
pub fn determine_working_directory(
    cwd: Option<String>,
    executable: &str,
    parent: Option<String>,
    current_dir: Result<String, String>,
) -> (r: Result<String, String>)
    ensures
        result_text(r) == working_directory(
            option_text(cwd),
            executable@,
            option_text(parent),
            result_text(current_dir),
        ),
{
    if let Some(dir) = cwd {
        return Ok(dir);
    }
    let chars = chars_of(executable);
    if find_char_exec(&chars, '/').is_some() {
        if let Some(p) = parent {
            return Ok(p);
        }
    }
    match current_dir {
        Ok(dir) => Ok(dir),
        Err(e) => {
            let mut message = "Failed to get current directory: ".to_owned();
            message.append(e.as_str());
            Err(message)
        },
    }
}

/// Parses a command line of the form
/// `NAME=value ... executable argument ...`.
///
/// The leading tokens that hold a `=` set environment variables. `CWD` sets
/// the working directory instead of a variable. `current_dir` is the
/// directory that the caller runs in, or the reason why it is not known; it
/// is used where neither `CWD` nor the executable's path gives a directory.
pub fn parse_linux_command(command: &str, current_dir: Result<String, String>) -> (r: Result<
    ParsedCommand,
    String,
>)
    ensures
        match r {
            Ok(p) => parsed(command@, result_text(current_dir)) == Ok::<
                ParsedCommandView,
                Seq<char>,
            >(p@),
            Err(e) => parsed(command@, result_text(current_dir)) == Err::<
                ParsedCommandView,
                Seq<char>,
            >(e@),
        },
{
    let chars = chars_of(command);
    let tokens = match tokenize_chars(&chars) {
        Ok(t) => t,
        Err(e) => {
            return Err(e);
        },
    };
    if tokens.len() == 0 {
        return Err("Empty command".to_owned());
    }
    let ghost all = rows(tokens@);
    let mut env_vars = EnvMap::new();
    let mut i: usize = 0;
    loop
        invariant_except_break
            i <= tokens.len(),
            all == rows(tokens@),
            assignment_end(all, i as int) == assignment_end(all, 0),
            env_vars@ == assigned(all, i as int),
        ensures
            i <= tokens.len(),
            all == rows(tokens@),
            i == assignment_end(all, 0),
            env_vars@ == assigned(all, i as int),
        decreases tokens.len() - i,
    {
        if i >= tokens.len() {
            break ;
        }
        let token = &tokens[i];
        assert(all[i as int] == token@);
        match find_char_exec(token, '=') {
            None => {
                break ;
            },
            Some(at) => {
                let name = slice_of(token, 0, at);
                let value = string_of(&slice_of(token, at + 1, token.len()));
                assert(split_once(token@, '=') == Some((name@, value@)));
                if is_text(&name, "CWD") {
                    env_vars.insert("_INTERNAL_CWD".to_owned(), value);
                } else {
                    env_vars.insert(string_of(&name), value);
                }
                i = i + 1;
            },
        }
    }
    if i >= tokens.len() {
        return Err("No executable found in command".to_owned());
    }
    let executable = string_of(&tokens[i]);
    assert(all[i as int] == executable@);
    let arguments = strings_of(&tokens, i + 1);
    let cwd = match env_vars.get("_INTERNAL_CWD") {
        Some(dir) => Some(dir.clone()),
        None => None,
    };
    let parent = parent_of(executable.as_str());
    let working_dir = match determine_working_directory(
        cwd,
        executable.as_str(),
        parent,
        current_dir,
    ) {
        Ok(dir) => dir,
        Err(e) => {
            return Err(e);
        },
    };
    env_vars.remove("_INTERNAL_CWD");
    Ok(ParsedCommand { env_vars, executable, working_dir, arguments })
}

} // verus!
