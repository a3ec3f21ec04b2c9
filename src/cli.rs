use vstd::prelude::*;
use vstd::string::*;

verus! {

/// The flag that selects a model instead of sending a prompt.
pub const SWITCH_FLAG: &'static str = "--switch";

/// The line printed when no prompt is given.
pub const USAGE: &'static str = "Usage: tell <prompt> | tell --switch <model>";

pub open spec fn switch_flag() -> Seq<char> {
    seq!['-', '-', 's', 'w', 'i', 't', 'c', 'h']
}

/// The words joined with one space between each two.
pub open spec fn join_words(words: Seq<Seq<char>>) -> Seq<char>
    decreases words.len(),
{
    if words.len() == 0 {
        Seq::empty()
    } else if words.len() == 1 {
        words[0]
    } else {
        join_words(words.drop_last()) + seq![' '] + words.last()
    }
}

/// The text of each argument.
pub open spec fn words_of(args: Seq<String>) -> Seq<Seq<char>> {
    args.map_values(|a: String| a@)
}

/// What one invocation asks for.
pub enum Command {
    /// No arguments: print the usage line and do nothing else.
    Usage,
    /// `--switch <model>`: persist `<model>` as the chosen model.
    Switch(String),
    /// `--switch` without exactly one model name after it.
    SwitchUsage,
    /// Any other arguments: send them, joined by spaces, as the prompt.
    Generate(String),
}

/// Joins the words with single spaces, as the prompt sent for generation.
pub fn join_prompt(words: &Vec<String>) -> (r: String)
    ensures
        r@ == join_words(words_of(words@)),
{
    let mut out = String::new();
    let mut i: usize = 0;
    while i < words.len()
        invariant
            i <= words.len(),
            out@ == join_words(words_of(words@.take(i as int))),
        decreases words.len() - i,
    {
        proof {
            let ws = words_of(words@.take(i as int + 1));
            assert(ws.drop_last() =~= words_of(words@.take(i as int)));
            assert(ws.last() == words@[i as int]@);
            reveal_strlit(" ");
            if i == 0 {
                assert(out@ + words@[0]@ =~= ws[0]);
            }
        }
        if i > 0 {
            out.append(" ");
        }
        out.append(words[i].as_str());
        i = i + 1;
    }
    proof {
        assert(words@.take(words.len() as int) =~= words@);
    }
    out
}

/// Decides what the arguments after the program name ask for.
pub fn parse_command(args: &Vec<String>) -> (r: Command)
    ensures
        args.len() == 0 ==> r is Usage,
        args.len() > 0 && args[0]@ == switch_flag() && args.len() == 2 ==> (r matches Command::Switch(
            m,
        ) && m@ == args[1]@),
        args.len() > 0 && args[0]@ == switch_flag() && args.len() != 2 ==> r is SwitchUsage,
        args.len() > 0 && args[0]@ != switch_flag() ==> (r matches Command::Generate(p) && p@
            == join_words(words_of(args@))),
{
    if args.len() == 0 {
        return Command::Usage;
    }
    let flag_text = SWITCH_FLAG;
    proof {
        reveal_strlit("--switch");
        assert(flag_text@ == switch_flag());
    }
    let flag = String::from_str(flag_text);
    if args[0] == flag {
        if args.len() == 2 {
            Command::Switch(args[1].clone())
        } else {
            Command::SwitchUsage
        }
    } else {
        Command::Generate(join_prompt(args))
    }
}

/// The confirmation printed after switching to `model`.
pub fn switch_notice(model: &str) -> (r: String)
    ensures
        r@ == seq!['S', 'w', 'i', 't', 'c', 'h', 'e', 'd', ' ', 't', 'o', ' ', 'm', 'o', 'd', 'e', 'l', ':', ' '] + model@,
{
    let mut out = String::from_str("Switched to model: ");
    proof {
        reveal_strlit("Switched to model: ");
    }
    out.append(model);
    out
}

} // verus!
