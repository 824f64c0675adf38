//! What `a2a doctor` and `a2a status` conclude from the probes they run.
use vstd::prelude::*;
use crate::text::{decimal, push_decimal, push_string, strings_view};

verus! {

/// The credential summary: the profile count, then the default profile,
/// or a hint to set one when profiles exist but none is the default.
pub open spec fn profile_summary_spec(count: nat, default: Option<Seq<char>>) -> Seq<Seq<char>> {
    seq!["credentials: "@ + decimal(count) + " profile(s)"@] + match default {
        Some(d) => seq!["default profile: "@ + d],
        None => if count > 0 {
            seq!["default profile: <none set>  (run `a2a auth use <name>`)"@]
        } else {
            seq![]
        },
    }
}

pub fn profile_summary(count: u64, default: Option<&str>) -> (r: Vec<String>)
    ensures
        strings_view(r@) == profile_summary_spec(
            count as nat,
            match default {
                Some(d) => Some(d@),
                None => None,
            },
        ),
{
    let mut out: Vec<String> = Vec::new();
    let mut l = String::from_str("credentials: ");
    push_decimal(&mut l, count);
    l.append(" profile(s)");
    push_string(&mut out, l.as_str());
    match default {
        Some(d) => {
            let mut l2 = String::from_str("default profile: ");
            l2.append(d);
            push_string(&mut out, l2.as_str());
        },
        None => if count > 0 {
            push_string(&mut out, "default profile: <none set>  (run `a2a auth use <name>`)");
        },
    }
    assert(strings_view(out@) =~= profile_summary_spec(
        count as nat,
        match default {
            Some(d) => Some(d@),
            None => None,
        },
    ));
    out
}

/// The project line and the closing hints of `a2a doctor`; `init` is
/// suggested only outside an initialised project.
pub open spec fn doctor_tail_spec(initialised: bool) -> Seq<Seq<char>> {
    seq![
        "project: "@ + if initialised {
            "initialised (.a2a/ marker found)"@
        } else {
            "<not initialised in this directory>"@
        },
    ]
}

pub open spec fn doctor_closing_spec(initialised: bool) -> Seq<Seq<char>> {
    seq![seq![], "Run `a2a auth add` to register an API key,"@] + (if initialised {
        seq![]
    } else {
        seq!["then `a2a init` in your project to install Cursor skills + project config,"@]
    }) + seq!["then `a2a ask <topic> --prompt-file <path>` to consult."@]
}

pub fn doctor_project_line(initialised: bool) -> (r: String)
    ensures
        seq![r@] == doctor_tail_spec(initialised),
{
    let mut s = String::from_str("project: ");
    if initialised {
        s.append("initialised (.a2a/ marker found)");
    } else {
        s.append("<not initialised in this directory>");
    }
    s
}

pub fn doctor_closing(initialised: bool) -> (r: Vec<String>)
    ensures
        strings_view(r@) == doctor_closing_spec(initialised),
{
    let mut out: Vec<String> = Vec::new();
    proof {
        reveal_strlit("");
    }
    push_string(&mut out, "");
    push_string(&mut out, "Run `a2a auth add` to register an API key,");
    if !initialised {
        push_string(&mut out, "then `a2a init` in your project to install Cursor skills + project config,");
    }
    push_string(&mut out, "then `a2a ask <topic> --prompt-file <path>` to consult.");
    assert(""@ =~= Seq::<char>::empty());
    assert(strings_view(out@) =~= doctor_closing_spec(initialised));
    out
}

} // verus!
