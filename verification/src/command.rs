//! From the chosen options to the command line.
//!
//! The line is seven tokens joined by single spaces: the program, four
//! flags, the output directory and the video. [`command_tokens`] says what
//! the tokens are, [`joined`] how they become one line, and
//! [`App::get_command`] computes exactly that.

use vstd::prelude::*;
use crate::options::{App, Options};
use crate::paths::{join_path, parent_of, path_join, path_parent};

verus! {

/// How a switch is written on the command line.
pub open spec fn flag_text(on: bool) -> Seq<char> {
    if on {
        "true"@
    } else {
        "false"@
    }
}

/// `text` between two single quotes. Quotes inside `text` stay as they are.
pub open spec fn quoted(text: Seq<char>) -> Seq<char> {
    "'"@ + text + "'"@
}

/// The video as the command line shows it: its path, or nothing while none
/// is picked.
pub open spec fn input_text(options: Options) -> Seq<char> {
    match options.input_file {
        Some(path) => path,
        None => Seq::empty(),
    }
}

/// The directory the tool writes to: the folder `out` beside the video.
/// It is empty while no video is picked, and for a path that has no parent.
pub open spec fn output_dir_text(options: Options) -> Seq<char> {
    match options.input_file {
        Some(path) => match path_parent(path) {
            Some(parent) => path_join(parent, "out"@),
            None => Seq::empty(),
        },
        None => Seq::empty(),
    }
}

/// The seven tokens of the command line for `options`, with `dir` as the
/// output directory.
pub open spec fn command_tokens(options: Options, dir: Seq<char>) -> Seq<Seq<char>> {
    seq![
        "auto_subtitle"@,
        "--model "@ + options.model.token_text(),
        "--output_srt "@ + flag_text(options.output_srt_file),
        "--verbose true"@,
        "--srt_only "@ + flag_text(options.only_output_srt),
        "-o "@ + quoted(dir),
        quoted(input_text(options)),
    ]
}

/// The tokens written one after another with a single space between each two.
pub open spec fn joined(tokens: Seq<Seq<char>>) -> Seq<char>
    decreases tokens.len(),
{
    if tokens.len() == 0 {
        Seq::empty()
    } else if tokens.len() == 1 {
        tokens[0]
    } else {
        joined(tokens.drop_last()) + " "@ + tokens.last()
    }
}

/// The command line for `options` with `dir` as the output directory.
pub open spec fn command_text(options: Options, dir: Seq<char>) -> Seq<char> {
    joined(command_tokens(options, dir))
}

/// The command line for `options`.
pub open spec fn command(options: Options) -> Seq<char> {
    command_text(options, output_dir_text(options))
}

pub fn flag_word(on: bool) -> (word: &'static str)
    ensures
        word@ == flag_text(on),
{
    if on {
        "true"
    } else {
        "false"
    }
}

pub fn quote(text: &str) -> (out: String)
    ensures
        out@ == quoted(text@),
{
    String::from_str("'").concat(text).concat("'")
}

pub fn join_tokens(tokens: &Vec<String>) -> (line: String)
    ensures
        line@ == joined(tokens.deep_view()),
{
    let mut line = String::new();
    let mut i: usize = 0;
    while i < tokens.len()
        invariant
            i <= tokens.len(),
            line@ == joined(tokens.deep_view().take(i as int)),
        decreases tokens.len() - i,
    {
        if i > 0 {
            line.append(" ");
        }
        line.append(tokens[i].as_str());
        proof {
            let all = tokens.deep_view();
            assert(all.take(i + 1).drop_last() =~= all.take(i as int));
            assert(all.take(i + 1).last() == tokens[i as int]@);
        }
        i += 1;
    }
    assert(tokens.deep_view().take(i as int) =~= tokens.deep_view());
    line
}

impl App {
    /// The directory the tool is to write to.
    pub fn output_dir(&self) -> (dir: String)
        ensures
            dir@ == output_dir_text(self@),
    {
        match self.input_file() {
            Some(path) => match parent_of(path.as_str()) {
                Some(parent) => join_path(parent.as_str(), "out"),
                None => String::new(),
            },
            None => String::new(),
        }
    }

    /// The tokens of the command line, with `dir` as the output directory.
    pub fn command_tokens(&self, dir: &str) -> (tokens: Vec<String>)
        ensures
            tokens.deep_view() == command_tokens(self@, dir@),
    {
        let input = match self.input_file() {
            Some(path) => quote(path.as_str()),
            None => quote(""),
        };
        let mut tokens: Vec<String> = Vec::new();
        tokens.push(String::from_str("auto_subtitle"));
        tokens.push(String::from_str("--model ").concat(self.model().token()));
        tokens.push(String::from_str("--output_srt ").concat(flag_word(self.output_srt_file())));
        tokens.push(String::from_str("--verbose true"));
        tokens.push(String::from_str("--srt_only ").concat(flag_word(self.only_output_srt())));
        tokens.push(String::from_str("-o ").concat(quote(dir).as_str()));
        tokens.push(input);
        proof {
            reveal_strlit("");
            assert(""@ =~= Seq::<char>::empty());
            assert(tokens.deep_view() =~= command_tokens(self@, dir@));
        }
        tokens
    }

    /// The command line with `dir` as the output directory.
    pub fn command_with_dir(&self, dir: &str) -> (line: String)
        ensures
            line@ == command_text(self@, dir@),
    {
        let tokens = self.command_tokens(dir);
        join_tokens(&tokens)
    }

    /// The command line that starts the tool with the chosen options.
    pub fn get_command(&self) -> (line: String)
        ensures
            line@ == command(self@),
    {
        let dir = self.output_dir();
        self.command_with_dir(dir.as_str())
    }
}

/// Joining one more token: the line so far, a space, the token.
pub proof fn lemma_joined_push(tokens: Seq<Seq<char>>, token: Seq<char>)
    ensures
        joined(tokens.push(token)) == if tokens.len() == 0 {
            token
        } else {
            joined(tokens) + " "@ + token
        },
{
    assert(tokens.push(token).drop_last() =~= tokens);
}

/// The whole line, letter for letter: the fixed words in their order, with
/// the model, the two switches, the directory and the video in their places.
pub proof fn lemma_command_shape(options: Options, dir: Seq<char>)
    ensures
        command_text(options, dir) == "auto_subtitle --model "@ + options.model.token_text()
            + " --output_srt "@ + flag_text(options.output_srt_file)
            + " --verbose true --srt_only "@ + flag_text(options.only_output_srt) + " -o '"@ + dir
            + "' '"@ + input_text(options) + "'"@,
{
    let tokens = command_tokens(options, dir);
    let t0 = Seq::<Seq<char>>::empty().push(tokens[0]);
    let t1 = t0.push(tokens[1]);
    let t2 = t1.push(tokens[2]);
    let t3 = t2.push(tokens[3]);
    let t4 = t3.push(tokens[4]);
    let t5 = t4.push(tokens[5]);
    let t6 = t5.push(tokens[6]);
    assert(t6 =~= tokens);
    lemma_joined_push(Seq::empty(), tokens[0]);
    lemma_joined_push(t0, tokens[1]);
    lemma_joined_push(t1, tokens[2]);
    lemma_joined_push(t2, tokens[3]);
    lemma_joined_push(t3, tokens[4]);
    lemma_joined_push(t4, tokens[5]);
    lemma_joined_push(t5, tokens[6]);
    reveal_strlit("auto_subtitle");
    reveal_strlit("--model ");
    reveal_strlit("--output_srt ");
    reveal_strlit("--verbose true");
    reveal_strlit("--srt_only ");
    reveal_strlit("-o ");
    reveal_strlit("'");
    reveal_strlit(" ");
    reveal_strlit("auto_subtitle --model ");
    reveal_strlit(" --output_srt ");
    reveal_strlit(" --verbose true --srt_only ");
    reveal_strlit(" -o '");
    reveal_strlit("' '");
    assert(joined(t6) =~= "auto_subtitle --model "@ + options.model.token_text()
        + " --output_srt "@ + flag_text(options.output_srt_file)
        + " --verbose true --srt_only "@ + flag_text(options.only_output_srt) + " -o '"@ + dir
        + "' '"@ + input_text(options) + "'"@);
}

/// Where the verbose flag starts in the line: behind the program, the model
/// and the first switch, each with the space that follows it.
pub open spec fn verbose_start(options: Options) -> int {
    ("auto_subtitle --model "@.len() + options.model.token_text().len() + " --output_srt "@.len()
        + flag_text(options.output_srt_file).len() + 1) as int
}

/// The line has seven tokens, and the fourth is the verbose flag: it is
/// there whatever the options are, and no other token is one. In the line
/// it stands at [`verbose_start`].
pub proof fn lemma_one_verbose_token(options: Options, dir: Seq<char>)
    ensures
        command_tokens(options, dir).len() == 7,
        forall|i: int|
            0 <= i < 7 ==> (#[trigger] command_tokens(options, dir)[i] == "--verbose true"@ <==> i
                == 3),
        0 <= verbose_start(options),
        verbose_start(options) + "--verbose true"@.len() <= command_text(options, dir).len(),
        command_text(options, dir).subrange(
            verbose_start(options),
            verbose_start(options) + "--verbose true"@.len(),
        ) == "--verbose true"@,
{
    let tokens = command_tokens(options, dir);
    lemma_command_shape(options, dir);
    reveal_strlit("auto_subtitle --model ");
    reveal_strlit(" --output_srt ");
    reveal_strlit(" --verbose true --srt_only ");
    reveal_strlit(" -o '");
    reveal_strlit("' '");
    reveal_strlit("auto_subtitle");
    reveal_strlit("--model ");
    reveal_strlit("--output_srt ");
    reveal_strlit("--verbose true");
    reveal_strlit("--srt_only ");
    reveal_strlit("-o ");
    reveal_strlit("'");
    assert(tokens[0][0] == 'a');
    assert(tokens[1][2] == 'm');
    assert(tokens[2][2] == 'o');
    assert(tokens[4][2] == 's');
    assert(tokens[5][1] == 'o');
    assert(tokens[6][0] == '\'');
    let line = command_text(options, dir);
    let start = verbose_start(options);
    let head = "auto_subtitle --model "@ + options.model.token_text() + " --output_srt "@
        + flag_text(options.output_srt_file);
    let tail = flag_text(options.only_output_srt) + " -o '"@ + dir + "' '"@ + input_text(options)
        + "'"@;
    assert(line =~= head + " --verbose true --srt_only "@ + tail);
    assert(start == head.len() + 1);
    assert forall|i: int| 0 <= i < 14 implies line[start + i] == "--verbose true"@[i] by {
        assert(line[start + i] == " --verbose true --srt_only "@[i + 1]);
    }
    assert(line.subrange(start, start + "--verbose true"@.len()) =~= "--verbose true"@);
}

/// Each switch shows in its own token, as the word for its value, and the
/// two words differ. Setting the switches changes those two tokens and no
/// other, and neither switch bears on the token of the other.
pub proof fn lemma_switches_independent(
    options: Options,
    output_srt_file: bool,
    only_output_srt: bool,
    dir: Seq<char>,
)
    ensures
        flag_text(true) != flag_text(false),
        ({
            let set = options.with_output_srt_file(output_srt_file).with_only_output_srt(
                only_output_srt,
            );
            &&& command_tokens(set, dir)[2] == "--output_srt "@ + flag_text(output_srt_file)
            &&& command_tokens(set, dir)[4] == "--srt_only "@ + flag_text(only_output_srt)
            &&& forall|i: int|
                0 <= i < 7 && i != 2 && i != 4 ==> #[trigger] command_tokens(set, dir)[i]
                    == command_tokens(options, dir)[i]
        }),
{
    reveal_strlit("true");
    reveal_strlit("false");
    assert(flag_text(true).len() != flag_text(false).len());
}

/// While no video is picked the line ends in an empty directory and an empty
/// path, each between its quotes.
pub proof fn lemma_no_input(options: Options)
    requires
        options.input_file is None,
    ensures
        output_dir_text(options) == Seq::<char>::empty(),
        command_tokens(options, output_dir_text(options))[5] == "-o ''"@,
        command_tokens(options, output_dir_text(options))[6] == "''"@,
        command(options) == "auto_subtitle --model "@ + options.model.token_text()
            + " --output_srt "@ + flag_text(options.output_srt_file)
            + " --verbose true --srt_only "@ + flag_text(options.only_output_srt) + " -o '' ''"@,
{
    let dir = output_dir_text(options);
    let tokens = command_tokens(options, dir);
    lemma_command_shape(options, dir);
    reveal_strlit("-o ");
    reveal_strlit("'");
    reveal_strlit("-o ''");
    reveal_strlit("''");
    reveal_strlit(" -o '");
    reveal_strlit("' '");
    reveal_strlit(" -o '' ''");
    assert(tokens[5] =~= "-o ''"@);
    assert(tokens[6] =~= "''"@);
    assert(" -o '"@ + dir + "' '"@ + input_text(options) + "'"@ =~= " -o '' ''"@);
    assert(command(options) =~= "auto_subtitle --model "@ + options.model.token_text()
        + " --output_srt "@ + flag_text(options.output_srt_file)
        + " --verbose true --srt_only "@ + flag_text(options.only_output_srt) + " -o '' ''"@);
}

/// Two clicks on a switch put the options, and so the line, back as they were.
pub proof fn lemma_toggle_twice(options: Options)
    ensures
        options.toggle_output_srt_file().toggle_output_srt_file() == options,
        options.toggle_only_output_srt().toggle_only_output_srt() == options,
        command(options.toggle_output_srt_file().toggle_output_srt_file()) == command(options),
        command(options.toggle_only_output_srt().toggle_only_output_srt()) == command(options),
{
}

/// Choosing the model that is already in use leaves the options, and so the
/// line, as they were.
pub proof fn lemma_select_active_model(options: Options)
    ensures
        options.with_model(options.model) == options,
        command(options.with_model(options.model)) == command(options),
{
}

} // verus!
