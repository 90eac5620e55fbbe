use vstd::prelude::*;
use vstd::string::*;

verus! {

/// One immutable request to the wrapper: the program to run, the
/// arguments handed through to it verbatim, and the output-format flag.
#[derive(Debug)]
pub struct Invocation {
    pub program: String,
    pub args: Vec<String>,
    pub posix: bool,
}

/// The tokens that select the POSIX output format: the short flag and its
/// full-word form.
pub open spec fn is_posix_flag(s: Seq<char>) -> bool {
    s == "-p"@ || s == "--posix"@
}

/// How many leading tokens of the command line are format flags.
pub open spec fn lead_flag_count(argv: Seq<Seq<char>>) -> nat
    decreases argv.len(),
{
    if argv.len() == 0 || !is_posix_flag(argv[0]) {
        0
    } else {
        1 + lead_flag_count(argv.drop_first())
    }
}

/// What a successful parse of the command line means: the first token
/// after the leading flags is the program, everything after it is handed
/// through untouched, and the POSIX format is selected exactly when a
/// flag was present.
pub open spec fn spec_parsed(
    argv: Seq<Seq<char>>,
    program: Seq<char>,
    args: Seq<Seq<char>>,
    posix: bool,
) -> bool {
    let k = lead_flag_count(argv);
    &&& k < argv.len()
    &&& program == argv[k as int]
    &&& args == argv.skip(k as int + 1)
    &&& posix == (k > 0)
}

proof fn lemma_flag_count_prefix(argv: Seq<Seq<char>>, i: int)
    requires
        0 <= i <= argv.len(),
        forall|j: int| 0 <= j < i ==> is_posix_flag(#[trigger] argv[j]),
        i < argv.len() ==> !is_posix_flag(argv[i]),
    ensures
        lead_flag_count(argv) == i,
    decreases i,
{
    if i > 0 {
        lemma_flag_count_prefix(argv.drop_first(), i - 1);
    }
}

fn is_flag_token(s: &String) -> (b: bool)
    ensures
        b == is_posix_flag(s@),
{
    let short = String::from_str("-p");
    if *s == short {
        return true;
    }
    let long = String::from_str("--posix");
    *s == long
}

/// Parses the wrapper's own command line (without the binary's name).
/// Leading `-p` / `--posix` tokens select the POSIX format; the first
/// other token is the program; the rest are its arguments, verbatim.
/// With no program present there is nothing to do and `None` comes back.
pub fn parse_invocation(argv: &Vec<String>) -> (r: Option<Invocation>)
    ensures
        r is Some <==> lead_flag_count(argv.deep_view()) < argv.deep_view().len(),
        r matches Some(inv) ==> spec_parsed(
            argv.deep_view(),
            inv.program@,
            inv.args.deep_view(),
            inv.posix,
        ),
{
    let mut i: usize = 0;
    while i < argv.len() && is_flag_token(&argv[i])
        invariant
            i <= argv@.len(),
            forall|j: int| 0 <= j < i ==> is_posix_flag(#[trigger] argv.deep_view()[j]),
        decreases argv@.len() - i,
    {
        i = i + 1;
    }
    proof {
        lemma_flag_count_prefix(argv.deep_view(), i as int);
    }
    if i == argv.len() {
        return None;
    }
    let program = argv[i].clone();
    let mut args: Vec<String> = Vec::new();
    let mut j: usize = i + 1;
    while j < argv.len()
        invariant
            i + 1 <= j <= argv@.len(),
            i < argv@.len(),
            args.deep_view() == argv.deep_view().subrange(i as int + 1, j as int),
        decreases argv@.len() - j,
    {
        let ghost pre = args.deep_view();
        args.push(argv[j].clone());
        proof {
            assert forall|m: int| 0 <= m < args.deep_view().len() implies args.deep_view()[m]
                == argv.deep_view().subrange(i as int + 1, j as int + 1)[m] by {
                if m < pre.len() {
                    assert(args.deep_view()[m] == pre[m]);
                } else {
                    assert(args@[m] == argv@[j as int]);
                }
            }
            assert(pre.len() == j - i - 1);
            assert(args.deep_view() =~~= argv.deep_view().subrange(i as int + 1, j as int + 1));
        }
        j = j + 1;
    }
    let posix = i > 0;
    proof {
        assert(args.deep_view() =~~= argv.deep_view().skip(i as int + 1));
    }
    Some(Invocation { program, args, posix })
}

} // verus!
