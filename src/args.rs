//! The command line of one report run.
use vstd::prelude::*;

verus! {

/// The argument list for a run: the script name first, then `--topic` and
/// its value when a topic is given, then `--last-week` when the flag is set.
pub open spec fn script_args_spec(topic: Option<Seq<char>>, last_week: bool) -> Seq<Seq<char>> {
    let topic_part = match topic {
        Some(v) => seq!["--topic"@, v],
        None => Seq::empty(),
    };
    let week_part = if last_week {
        seq!["--last-week"@]
    } else {
        Seq::empty()
    };
    seq!["brutalist_report.py"@] + topic_part + week_part
}

/// The interpreter executable: `python` on Windows, `python3` elsewhere.
pub open spec fn interpreter_spec(windows: bool) -> Seq<char> {
    if windows {
        "python"@
    } else {
        "python3"@
    }
}

/// Builds the arguments handed to the interpreter for one run.
pub fn script_args(topic: Option<String>, last_week: bool) -> (r: Vec<String>)
    ensures
        r.len() == script_args_spec(topic.deep_view(), last_week).len(),
        forall|i: int|
            0 <= i < r.len() ==> #[trigger] r[i]@ == script_args_spec(topic.deep_view(), last_week)[i],
        r[0]@ == "brutalist_report.py"@,
        topic is None ==> forall|i: int| 0 <= i < r.len() ==> r[i]@ != "--topic"@,
        topic is Some ==> exists|i: int|
            0 <= i && i + 1 < r.len() && #[trigger] r[i]@ == "--topic"@ && r[i + 1]@ == topic->0@,
        last_week ==> exists|i: int| 0 <= i < r.len() && r[i]@ == "--last-week"@,
        !last_week && (topic is None || topic->0@ != "--last-week"@) ==> forall|i: int|
            0 <= i < r.len() ==> r[i]@ != "--last-week"@,
{
    let mut r: Vec<String> = Vec::new();
    r.push(String::from_str("brutalist_report.py"));
    let ghost mut topic_index: int = 0;
    match topic {
        Some(v) => {
            r.push(String::from_str("--topic"));
            proof {
                topic_index = 1;
            }
            r.push(v);
        },
        None => {},
    }
    if last_week {
        r.push(String::from_str("--last-week"));
    }
    proof {
        reveal_strlit("brutalist_report.py");
        reveal_strlit("--topic");
        reveal_strlit("--last-week");
        assert(r.deep_view() =~= script_args_spec(topic.deep_view(), last_week));
        assert(forall|i: int| 0 <= i < r.len() ==> r[i]@ == #[trigger] r.deep_view()[i]);
        assert(("brutalist_report.py"@)[0] != ("--topic"@)[0]);
        assert(("brutalist_report.py"@)[0] != ("--last-week"@)[0]);
        assert(("--topic"@).len() != ("--last-week"@).len());
        if last_week {
            assert(r[r.len() - 1]@ == "--last-week"@);
        }
        if topic is Some {
            assert(r[topic_index]@ == "--topic"@ && r[topic_index + 1]@ == topic->0@);
        }
    }
    r
}

/// Names the interpreter executable for the platform the host runs on.
pub fn interpreter(windows: bool) -> (r: String)
    ensures
        r@ == interpreter_spec(windows),
{
    if windows {
        String::from_str("python")
    } else {
        String::from_str("python3")
    }
}

} // verus!
