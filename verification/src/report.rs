use crate::status::Counts;
use crate::text::{decimal, push_chars, spec_decimal};
use vstd::prelude::*;

verus! {

/// The one prompt line for a label, a divergence pair and the four status
/// totals. Every segment is preceded by its fixed color directive, written
/// for a shell prompt's expansion syntax: the label after a reset, a `<`
/// marker with the behind count and a `>` marker with the ahead count only
/// when non-zero, a `/` separator, then in fixed order a `-` staged, `!`
/// conflicts, `+` changed and `_` untracked marker with each non-zero
/// count, a single `=` marker instead when all four are zero, and a
/// closing ` :: ` with a final reset.
pub open spec fn spec_report(label: Seq<char>, ahead: nat, behind: nat, c: Counts) -> Seq<char> {
    "%{\x1b[0m%}"@ + label + (if behind > 0 {
        "%{\x1b[31;1m%}<"@ + spec_decimal(behind)
    } else {
        Seq::<char>::empty()
    }) + (if ahead > 0 {
        "%{\x1b[36;1m%}>"@ + spec_decimal(ahead)
    } else {
        Seq::<char>::empty()
    }) + "%{\x1b[30;1m%}/"@ + (if c.staged > 0 {
        "%{\x1b[33;1m%}-"@ + spec_decimal(c.staged as nat)
    } else {
        Seq::<char>::empty()
    }) + (if c.conflicts > 0 {
        "%{\x1b[31;1m%}!"@ + spec_decimal(c.conflicts as nat)
    } else {
        Seq::<char>::empty()
    }) + (if c.changed > 0 {
        "%{\x1b[34;1m%}+"@ + spec_decimal(c.changed as nat)
    } else {
        Seq::<char>::empty()
    }) + (if c.untracked > 0 {
        "%{\x1b[35;1m%}_"@ + spec_decimal(c.untracked as nat)
    } else {
        Seq::<char>::empty()
    }) + (if c.is_clean() {
        "%{\x1b[32;1m%}="@
    } else {
        Seq::<char>::empty()
    }) + "%{\x1b[30;1m%} :: %{\x1b[0m%}"@
}

/// Builds the prompt line, segment by segment in the order the
/// specification lays down.
pub fn format_report(label: &str, ahead: usize, behind: usize, c: &Counts) -> (r: String)
    ensures
        r@ == spec_report(label@, ahead as nat, behind as nat, *c),
{
    let mut s = String::new();
    push_chars(&mut s, "%{\x1b[0m%}");
    push_chars(&mut s, label);
    let ghost e0: Seq<char> = "%{\x1b[0m%}"@ + label@;
    proof {
        assert(s@ =~= e0);
    }
    if behind > 0 {
        push_chars(&mut s, "%{\x1b[31;1m%}<");
        let d = decimal(behind);
        push_chars(&mut s, d.as_str());
    }
    let ghost e1: Seq<char> = e0 + (if behind > 0 {
        "%{\x1b[31;1m%}<"@ + spec_decimal(behind as nat)
    } else {
        Seq::<char>::empty()
    });
    proof {
        assert(s@ =~= e1);
    }
    if ahead > 0 {
        push_chars(&mut s, "%{\x1b[36;1m%}>");
        let d = decimal(ahead);
        push_chars(&mut s, d.as_str());
    }
    let ghost e2: Seq<char> = e1 + (if ahead > 0 {
        "%{\x1b[36;1m%}>"@ + spec_decimal(ahead as nat)
    } else {
        Seq::<char>::empty()
    });
    proof {
        assert(s@ =~= e2);
    }
    push_chars(&mut s, "%{\x1b[30;1m%}/");
    let ghost e3: Seq<char> = e2 + "%{\x1b[30;1m%}/"@;
    let mut clean = true;
    if c.staged > 0 {
        clean = false;
        push_chars(&mut s, "%{\x1b[33;1m%}-");
        let d = decimal(c.staged);
        push_chars(&mut s, d.as_str());
    }
    let ghost e4: Seq<char> = e3 + (if c.staged > 0 {
        "%{\x1b[33;1m%}-"@ + spec_decimal(c.staged as nat)
    } else {
        Seq::<char>::empty()
    });
    proof {
        assert(s@ =~= e4);
    }
    if c.conflicts > 0 {
        clean = false;
        push_chars(&mut s, "%{\x1b[31;1m%}!");
        let d = decimal(c.conflicts);
        push_chars(&mut s, d.as_str());
    }
    let ghost e5: Seq<char> = e4 + (if c.conflicts > 0 {
        "%{\x1b[31;1m%}!"@ + spec_decimal(c.conflicts as nat)
    } else {
        Seq::<char>::empty()
    });
    proof {
        assert(s@ =~= e5);
    }
    if c.changed > 0 {
        clean = false;
        push_chars(&mut s, "%{\x1b[34;1m%}+");
        let d = decimal(c.changed);
        push_chars(&mut s, d.as_str());
    }
    let ghost e6: Seq<char> = e5 + (if c.changed > 0 {
        "%{\x1b[34;1m%}+"@ + spec_decimal(c.changed as nat)
    } else {
        Seq::<char>::empty()
    });
    proof {
        assert(s@ =~= e6);
    }
    if c.untracked > 0 {
        clean = false;
        push_chars(&mut s, "%{\x1b[35;1m%}_");
        let d = decimal(c.untracked);
        push_chars(&mut s, d.as_str());
    }
    let ghost e7: Seq<char> = e6 + (if c.untracked > 0 {
        "%{\x1b[35;1m%}_"@ + spec_decimal(c.untracked as nat)
    } else {
        Seq::<char>::empty()
    });
    proof {
        assert(s@ =~= e7);
    }
    if clean {
        push_chars(&mut s, "%{\x1b[32;1m%}=");
    }
    let ghost e8: Seq<char> = e7 + (if c.is_clean() {
        "%{\x1b[32;1m%}="@
    } else {
        Seq::<char>::empty()
    });
    proof {
        assert(s@ =~= e8);
    }
    push_chars(&mut s, "%{\x1b[30;1m%} :: %{\x1b[0m%}");
    proof {
        assert(s@ =~= spec_report(label@, ahead as nat, behind as nat, *c));
    }
    s
}

} // verus!
