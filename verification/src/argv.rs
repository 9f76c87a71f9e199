//! Reading a command line: each word after the program name is an option
//! cluster (`-vt`), a long option (`--test`), the end-of-options marker
//! (`--`), or a positional word; every word after the marker is positional.
use vstd::prelude::*;
use crate::text::strs_view;

verus! {

/// Why a command line was refused.
#[derive(Debug, Clone, Copy, PartialEq, Eq, Structural)]
pub enum CliError {
    /// No command (or no subcommand of `brew`, `fish` or `vscode`) was given.
    MissingSubcommand,
    /// The command or subcommand is not known.
    UnknownSubcommand,
    /// An option is not known where it was given.
    UnknownOption,
    /// A required argument is missing.
    MissingArgument,
    /// There are more arguments than the command takes.
    UnexpectedArgument,
    /// An option that may be given once was given again.
    ArgumentConflict,
    /// Help was asked for (`-h`, `--help`, or the command `help`); the
    /// program shows it instead of running.
    DisplayHelp,
    /// The version was asked for (`-V` or `--version` before the command);
    /// the program shows it instead of running.
    DisplayVersion,
}

/// What an option asks for as the command line is read left to right.
#[derive(Debug, Clone, Copy, PartialEq, Eq, Structural)]
pub enum OptionEvent {
    /// Nothing: the option is known there.
    Fine,
    /// Help (`h`, `help`).
    Help,
    /// The version (`V`, `version`), where it may be asked for.
    Version,
    /// An option that is not known there.
    Unknown,
}

/// What one word of a command line is.
#[derive(Clone, Debug)]
pub enum Token {
    /// A positional word.
    Positional(String),
    /// A cluster of short options: the letters after the `-`.
    Short(String),
    /// A long option: the name after the `--`.
    Long(String),
    /// The `--` that ends the options.
    EndOfOptions,
}

pub enum TokenView {
    Positional(Seq<char>),
    Short(Seq<char>),
    Long(Seq<char>),
    EndOfOptions,
}

impl View for Token {
    type V = TokenView;

    open spec fn view(&self) -> TokenView {
        match self {
            Token::Positional(s) => TokenView::Positional(s@),
            Token::Short(s) => TokenView::Short(s@),
            Token::Long(s) => TokenView::Long(s@),
            Token::EndOfOptions => TokenView::EndOfOptions,
        }
    }
}

pub open spec fn tokens_view(v: Seq<Token>) -> Seq<TokenView> {
    v.map_values(|t: Token| t@)
}

/// The end-of-options marker `--`.
pub open spec fn dd() -> Seq<char> {
    seq!['-', '-']
}

/// What a word is, given whether the marker came before it.
pub open spec fn classify_word(w: Seq<char>, after_marker: bool) -> TokenView {
    if after_marker {
        TokenView::Positional(w)
    } else if w == dd() {
        TokenView::EndOfOptions
    } else if w.len() > 2 && w[0] == '-' && w[1] == '-' {
        TokenView::Long(w.skip(2))
    } else if w.len() > 1 && w[0] == '-' {
        TokenView::Short(w.skip(1))
    } else {
        TokenView::Positional(w)
    }
}

/// The words of a command line, each classified.
pub open spec fn classify_words(words: Seq<Seq<char>>) -> Seq<TokenView> {
    Seq::new(words.len(), |i: int| classify_word(words[i], words.take(i).contains(dd())))
}

/// Classifies the words of a command line.
pub fn classify(words: &[&str]) -> (res: Vec<Token>)
    ensures
        tokens_view(res@) == classify_words(strs_view(words@)),
{
    let ghost wv = strs_view(words@);
    let mut out: Vec<Token> = Vec::new();
    let mut after = false;
    let mut i: usize = 0;
    while i < words.len()
        invariant
            wv == strs_view(words@),
            i <= words@.len(),
            after == wv.take(i as int).contains(dd()),
            tokens_view(out@) == classify_words(wv).take(i as int),
        decreases words@.len() - i,
    {
        let w = words[i];
        let n = w.unicode_len();
        let ghost before = tokens_view(out@);
        let is_dd = n == 2 && w.get_char(0) == '-' && w.get_char(1) == '-';
        assert(is_dd == (w@ == dd())) by {
            if w@ == dd() {
                assert(w@[0] == '-' && w@[1] == '-');
            }
            if is_dd {
                assert(w@ =~= dd());
            }
        }
        let t = if after {
            Token::Positional(String::from_str(w))
        } else if is_dd {
            Token::EndOfOptions
        } else if n > 2 && w.get_char(0) == '-' && w.get_char(1) == '-' {
            assert(w@.subrange(2, n as int) =~= w@.skip(2));
            Token::Long(String::from_str(w.substring_char(2, n)))
        } else if n > 1 && w.get_char(0) == '-' {
            assert(w@.subrange(1, n as int) =~= w@.skip(1));
            Token::Short(String::from_str(w.substring_char(1, n)))
        } else {
            Token::Positional(String::from_str(w))
        };
        assert(t@ == classify_word(wv[i as int], wv.take(i as int).contains(dd())));
        out.push(t);
        assert(classify_words(wv)[i as int] == t@);
        assert(classify_words(wv).take(i + 1) =~= classify_words(wv).take(i as int).push(t@));
        assert(tokens_view(out@) =~= classify_words(wv).take(i + 1));
        proof {
            let pre = wv.take(i as int);
            let post = wv.take(i + 1);
            assert(post =~= pre.push(wv[i as int]));
            if post.contains(dd()) && !pre.contains(dd()) {
                let k = choose|k: int| 0 <= k < post.len() && post[k] == dd();
                if k < i {
                    assert(pre[k] == dd());
                }
            }
            if pre.contains(dd()) {
                let k = choose|k: int| 0 <= k < pre.len() && pre[k] == dd();
                assert(post[k] == dd());
            }
            if is_dd {
                assert(post[i as int] == dd());
            }
        }
        after = after || is_dd;
        i = i + 1;
    }
    assert(classify_words(wv).take(words@.len() as int) =~= classify_words(wv));
    out
}

/// The positional words, in order.
pub open spec fn positionals(ts: Seq<TokenView>) -> Seq<Seq<char>>
    decreases ts.len(),
{
    if ts.len() == 0 {
        Seq::empty()
    } else {
        let prev = positionals(ts.drop_last());
        match ts.last() {
            TokenView::Positional(w) => prev.push(w),
            _ => prev,
        }
    }
}

/// Where the first positional word is.
pub open spec fn first_positional(ts: Seq<TokenView>) -> Option<int>
    decreases ts.len(),
{
    if ts.len() == 0 {
        None
    } else {
        match first_positional(ts.drop_last()) {
            Some(k) => Some(k),
            None => if ts.last() is Positional {
                Some(ts.len() - 1)
            } else {
                None
            },
        }
    }
}

/// How many of the letters of an option cluster are `c`.
pub open spec fn count_char(s: Seq<char>, c: char) -> nat
    decreases s.len(),
{
    if s.len() == 0 {
        0
    } else {
        count_char(s.drop_last(), c) + if s.last() == c {
            1nat
        } else {
            0nat
        }
    }
}

/// How often an option is given, by its letter or by its name.
pub open spec fn count_option(ts: Seq<TokenView>, letter: char, name: Seq<char>) -> nat
    decreases ts.len(),
{
    if ts.len() == 0 {
        0
    } else {
        count_option(ts.drop_last(), letter, name) + match ts.last() {
            TokenView::Short(l) => count_char(l, letter),
            TokenView::Long(n) => if n == name {
                1nat
            } else {
                0nat
            },
            _ => 0nat,
        }
    }
}

/// What the letters of an option cluster ask for: the first letter that is
/// `h`, `V` (where the version may be asked for) or not one of `letters`
/// decides.
pub open spec fn cluster_event(l: Seq<char>, letters: Seq<char>, version_ok: bool) -> OptionEvent
    decreases l.len(),
{
    if l.len() == 0 {
        OptionEvent::Fine
    } else if l[0] == 'h' {
        OptionEvent::Help
    } else if version_ok && l[0] == 'V' {
        OptionEvent::Version
    } else if !letters.contains(l[0]) {
        OptionEvent::Unknown
    } else {
        cluster_event(l.skip(1), letters, version_ok)
    }
}

/// What one word asks for; positional words and `--` ask for nothing.
pub open spec fn token_event(
    t: TokenView,
    letters: Seq<char>,
    names: Seq<Seq<char>>,
    version_ok: bool,
) -> OptionEvent {
    match t {
        TokenView::Short(l) => cluster_event(l, letters, version_ok),
        TokenView::Long(n) => if n == "help"@ {
            OptionEvent::Help
        } else if version_ok && n == "version"@ {
            OptionEvent::Version
        } else if names.contains(n) {
            OptionEvent::Fine
        } else {
            OptionEvent::Unknown
        },
        _ => OptionEvent::Fine,
    }
}

/// What the first word among `ts[lo..hi]` that asks for something asks
/// for; `Fine` where none does.
pub open spec fn first_event(
    ts: Seq<TokenView>,
    lo: int,
    hi: int,
    letters: Seq<char>,
    names: Seq<Seq<char>>,
    version_ok: bool,
) -> OptionEvent
    decreases hi - lo,
{
    if lo >= hi {
        OptionEvent::Fine
    } else if token_event(ts[lo], letters, names, version_ok) != OptionEvent::Fine {
        token_event(ts[lo], letters, names, version_ok)
    } else {
        first_event(ts, lo + 1, hi, letters, names, version_ok)
    }
}

/// The outcome that an event other than `Fine` gives a command line.
pub open spec fn event_error(e: OptionEvent) -> CliError {
    match e {
        OptionEvent::Help => CliError::DisplayHelp,
        OptionEvent::Version => CliError::DisplayVersion,
        _ => CliError::UnknownOption,
    }
}

pub fn event_error_exec(e: OptionEvent) -> (res: CliError)
    ensures
        res == event_error(e),
{
    match e {
        OptionEvent::Help => CliError::DisplayHelp,
        OptionEvent::Version => CliError::DisplayVersion,
        _ => CliError::UnknownOption,
    }
}

pub fn positional_words(ts: &Vec<Token>) -> (res: Vec<String>)
    ensures
        res@.map_values(|s: String| s@) == positionals(tokens_view(ts@)),
{
    let ghost tv = tokens_view(ts@);
    let mut out: Vec<String> = Vec::new();
    let mut i: usize = 0;
    assert(tv.take(0) =~= Seq::<TokenView>::empty());
    while i < ts.len()
        invariant
            tv == tokens_view(ts@),
            i <= ts@.len(),
            out@.map_values(|s: String| s@) == positionals(tv.take(i as int)),
        decreases ts@.len() - i,
    {
        assert(tv.take(i + 1).drop_last() =~= tv.take(i as int));
        assert(tv.take(i + 1).last() == ts@[i as int]@);
        match &ts[i] {
            Token::Positional(w) => {
                let ghost before = out@.map_values(|s: String| s@);
                out.push(w.clone());
                assert(out@.map_values(|s: String| s@) =~= before.push(w@));
            },
            _ => {},
        }
        i = i + 1;
    }
    assert(tv.take(ts@.len() as int) =~= tv);
    out
}

pub fn first_positional_index(ts: &Vec<Token>) -> (res: Option<usize>)
    ensures
        match res {
            Some(k) => first_positional(tokens_view(ts@)) == Some(k as int) && k < ts@.len(),
            None => first_positional(tokens_view(ts@)) is None,
        },
{
    let ghost tv = tokens_view(ts@);
    let mut i: usize = 0;
    assert(tv.take(0) =~= Seq::<TokenView>::empty());
    while i < ts.len()
        invariant
            tv == tokens_view(ts@),
            i <= ts@.len(),
            first_positional(tv.take(i as int)) is None,
        decreases ts@.len() - i,
    {
        assert(tv.take(i + 1).drop_last() =~= tv.take(i as int));
        assert(tv.take(i + 1).last() == ts@[i as int]@);
        match &ts[i] {
            Token::Positional(_) => {
                proof {
                    lemma_first_positional_extends(tv, i as int + 1);
                }
                return Some(i);
            },
            _ => {},
        }
        i = i + 1;
    }
    assert(tv.take(ts@.len() as int) =~= tv);
    None
}

/// Once found within a prefix, the first positional stays where it is.
pub proof fn lemma_first_positional_extends(ts: Seq<TokenView>, n: int)
    requires
        0 <= n <= ts.len(),
        first_positional(ts.take(n)) is Some,
    ensures
        first_positional(ts) == first_positional(ts.take(n)),
    decreases ts.len() - n,
{
    if n < ts.len() {
        assert(ts.take(n + 1).drop_last() =~= ts.take(n));
        lemma_first_positional_extends(ts, n + 1);
    } else {
        assert(ts.take(n) =~= ts);
    }
}

fn count_char_exec(s: &str, c: char) -> (res: u64)
    ensures
        res as nat == count_char(s@, c),
        res <= s@.len(),
{
    let n = s.unicode_len();
    let mut k: u64 = 0;
    let mut i: usize = 0;
    assert(s@.take(0) =~= Seq::<char>::empty());
    while i < n
        invariant
            n == s@.len(),
            i <= n,
            k as nat == count_char(s@.take(i as int), c),
            k <= i,
        decreases n - i,
    {
        assert(s@.take(i + 1).drop_last() =~= s@.take(i as int));
        if s.get_char(i) == c {
            k = k + 1;
        }
        i = i + 1;
    }
    assert(s@.take(n as int) =~= s@);
    k
}

/// How often an option is given, counted up to 255.
pub fn count_option_capped(ts: &Vec<Token>, letter: char, name: &str) -> (res: u8)
    ensures
        count_option(tokens_view(ts@), letter, name@) >= 255 ==> res == 255,
        count_option(tokens_view(ts@), letter, name@) < 255 ==> res as nat == count_option(
            tokens_view(ts@),
            letter,
            name@,
        ),
{
    let ghost tv = tokens_view(ts@);
    let mut total: u8 = 0;
    let mut capped = false;
    let mut i: usize = 0;
    assert(tv.take(0) =~= Seq::<TokenView>::empty());
    while i < ts.len()
        invariant
            tv == tokens_view(ts@),
            i <= ts@.len(),
            capped ==> count_option(tv.take(i as int), letter, name@) >= 255 && total == 255,
            !capped ==> total as nat == count_option(tv.take(i as int), letter, name@) && total < 255,
        decreases ts@.len() - i,
    {
        assert(tv.take(i + 1).drop_last() =~= tv.take(i as int));
        assert(tv.take(i + 1).last() == ts@[i as int]@);
        let add: u64 = match &ts[i] {
            Token::Short(l) => count_char_exec(l.as_str(), letter),
            Token::Long(n) => if crate::text::str_eq(n.as_str(), name) {
                1
            } else {
                0
            },
            _ => 0,
        };
        if !capped {
            if add >= 255 || (total as u64) + add >= 255 {
                capped = true;
                total = 255;
            } else {
                total = total + add as u8;
            }
        }
        i = i + 1;
    }
    assert(tv.take(ts@.len() as int) =~= tv);
    total
}

fn cluster_event_exec(l: &str, letters: &str, version_ok: bool) -> (res: OptionEvent)
    ensures
        res == cluster_event(l@, letters@, version_ok),
{
    let n = l.unicode_len();
    let mut j: usize = 0;
    assert(l@.skip(0) =~= l@);
    while j < n
        invariant
            n == l@.len(),
            j <= n,
            cluster_event(l@, letters@, version_ok) == cluster_event(l@.skip(j as int), letters@, version_ok),
        decreases n - j,
    {
        let c = l.get_char(j);
        assert(l@.skip(j as int)[0] == c);
        if c == 'h' {
            return OptionEvent::Help;
        }
        if version_ok && c == 'V' {
            return OptionEvent::Version;
        }
        if !has_char(letters, c) {
            return OptionEvent::Unknown;
        }
        assert(l@.skip(j as int).skip(1) =~= l@.skip(j + 1));
        j = j + 1;
    }
    assert(l@.skip(n as int).len() == 0);
    OptionEvent::Fine
}

/// What the first word among `ts[lo..hi]` that asks for something asks
/// for: help, the version (where `version_ok`), or a refusal of an option
/// that is not one of `letters` or `names`.
pub fn first_option_event(
    ts: &Vec<Token>,
    lo: usize,
    hi: usize,
    letters: &str,
    names: &[&str],
    version_ok: bool,
) -> (res: OptionEvent)
    requires
        lo <= hi <= ts@.len(),
    ensures
        res == first_event(tokens_view(ts@), lo as int, hi as int, letters@, strs_view(names@), version_ok),
{
    let ghost tv = tokens_view(ts@);
    let ghost nv = strs_view(names@);
    let mut i: usize = lo;
    while i < hi
        invariant
            tv == tokens_view(ts@),
            nv == strs_view(names@),
            lo <= i <= hi <= ts@.len(),
            first_event(tv, lo as int, hi as int, letters@, nv, version_ok) == first_event(
                tv,
                i as int,
                hi as int,
                letters@,
                nv,
                version_ok,
            ),
        decreases hi - i,
    {
        assert(tv[i as int] == ts@[i as int]@);
        let e = match &ts[i] {
            Token::Short(l) => {
                let r = cluster_event_exec(l.as_str(), letters, version_ok);
                assert(tv[i as int] == TokenView::Short(l@));
                r
            },
            Token::Long(n) => {
                assert(tv[i as int] == TokenView::Long(n@));
                proof {
                    reveal_strlit("help");
                    reveal_strlit("version");
                }
                if crate::text::str_eq(n.as_str(), "help") {
                    OptionEvent::Help
                } else if version_ok && crate::text::str_eq(n.as_str(), "version") {
                    OptionEvent::Version
                } else if crate::text::contains_str(names, n.as_str()) {
                    OptionEvent::Fine
                } else {
                    OptionEvent::Unknown
                }
            },
            Token::Positional(p) => {
                assert(tv[i as int] == TokenView::Positional(p@));
                OptionEvent::Fine
            },
            Token::EndOfOptions => OptionEvent::Fine,
        };
        assert(e == token_event(tv[i as int], letters@, nv, version_ok));
        if e != OptionEvent::Fine {
            return e;
        }
        i = i + 1;
    }
    OptionEvent::Fine
}

fn has_char(s: &str, c: char) -> (res: bool)
    ensures
        res == s@.contains(c),
{
    let n = s.unicode_len();
    let mut i: usize = 0;
    while i < n
        invariant
            n == s@.len(),
            i <= n,
            forall|q: int| 0 <= q < i ==> s@[q] != c,
        decreases n - i,
    {
        if s.get_char(i) == c {
            assert(s@[i as int] == c);
            return true;
        }
        i = i + 1;
    }
    false
}

/// The words after the program name.
pub open spec fn words_after_program(argv: Seq<Seq<char>>) -> Seq<Seq<char>> {
    if argv.len() == 0 {
        Seq::empty()
    } else {
        argv.skip(1)
    }
}

/// How often `-v` is given, counted up to 255.
pub open spec fn verbosity(ts: Seq<TokenView>) -> u8 {
    let n = count_option(ts, 'v', "verbose"@);
    if n >= 255 {
        255
    } else {
        n as u8
    }
}

/// The subcommand of `brew`, `fish` or `vscode`: exactly one word.
pub open spec fn sub_choice<T>(args: Seq<Seq<char>>, pick: spec_fn(Seq<char>) -> Option<T>) -> Result<
    T,
    CliError,
> {
    if args.len() == 0 {
        Err(CliError::MissingSubcommand)
    } else {
        match pick(args[0]) {
            None => Err(CliError::UnknownSubcommand),
            Some(c) => if args.len() > 1 {
                Err(CliError::UnexpectedArgument)
            } else {
                Ok(c)
            },
        }
    }
}

/// The first positional word is the first of the positional words.
pub proof fn lemma_positionals_nonempty(ts: Seq<TokenView>, k: int)
    requires
        first_positional(ts) == Some(k),
    ensures
        0 <= k < ts.len(),
        ts[k] is Positional,
        positionals(ts).len() > 0,
        positionals(ts)[0] == ts[k]->Positional_0,
    decreases ts.len(),
{
    let init = ts.drop_last();
    match first_positional(init) {
        Some(j) => {
            lemma_positionals_nonempty(init, j);
            assert(init[j] == ts[j]);
        },
        None => {
            lemma_no_positionals(init);
        },
    }
}

pub proof fn lemma_no_positionals(ts: Seq<TokenView>)
    requires
        first_positional(ts) is None,
    ensures
        positionals(ts).len() == 0,
    decreases ts.len(),
{
    if ts.len() > 0 {
        lemma_no_positionals(ts.drop_last());
    }
}

} // verus!
