//! Textual rendering of wire trees: compact JSON text with camelCase keys
//! exactly as held in the tree, absent fields already omitted at the tree
//! level. Quotes and backslashes inside strings are escaped with a
//! backslash; the rendering is deterministic given the same tree.

use vstd::prelude::*;
use vstd::string::StrSliceExecFns;
use vstd::string::StringExecFns;
use crate::json::{Json, JVal, jval_of, jvals_of, jpairs_of, lemma_jvals_of, lemma_jpairs_of,
    push_char};

verus! {

/// The decimal digit character of a value below ten.
pub open spec fn digit_char(d: u64) -> char {
    if d == 0 {
        '0'
    } else if d == 1 {
        '1'
    } else if d == 2 {
        '2'
    } else if d == 3 {
        '3'
    } else if d == 4 {
        '4'
    } else if d == 5 {
        '5'
    } else if d == 6 {
        '6'
    } else if d == 7 {
        '7'
    } else if d == 8 {
        '8'
    } else {
        '9'
    }
}

/// The decimal rendering of an unsigned integer, without leading zeros.
pub open spec fn dec_digits(n: u64) -> Seq<char>
    decreases n,
{
    if n < 10 {
        seq![digit_char(n)]
    } else {
        dec_digits(n / 10) + seq![digit_char(n % 10)]
    }
}

/// The escaped form of one string character: quotes and backslashes get a
/// preceding backslash, every other character stands as itself.
pub open spec fn esc_char(c: char) -> Seq<char> {
    if c == '"' || c == '\\' {
        seq!['\\', c]
    } else {
        seq![c]
    }
}

/// The escaped body of a string.
pub open spec fn esc_str(s: Seq<char>) -> Seq<char>
    decreases s.len(),
{
    if s.len() == 0 {
        Seq::empty()
    } else {
        esc_char(s[0]) + esc_str(s.subrange(1, s.len() as int))
    }
}

/// A quoted, escaped string.
pub open spec fn text_str(s: Seq<char>) -> Seq<char> {
    seq!['"'] + esc_str(s) + seq!['"']
}

/// The text of a wire tree.
pub open spec fn text_of(v: JVal) -> Seq<char>
    decreases v, 0int,
{
    match v {
        JVal::Null => "null"@,
        JVal::Bool(b) => if b {
            "true"@
        } else {
            "false"@
        },
        JVal::UInt(n) => dec_digits(n),
        JVal::Str(s) => text_str(s),
        JVal::Arr(items) => seq!['['] + text_items(items) + seq![']'],
        JVal::Obj(pairs) => seq!['{'] + text_members(pairs) + seq!['}'],
    }
}

/// The comma-separated texts of array elements.
pub open spec fn text_items(s: Seq<JVal>) -> Seq<char>
    decreases s, 1int,
{
    if s.len() == 0 {
        Seq::empty()
    } else if s.len() == 1 {
        text_of(s[0])
    } else {
        text_of(s[0]) + seq![','] + text_items(s.subrange(1, s.len() as int))
    }
}

/// The comma-separated texts of object members, each a quoted key, a
/// colon and the member's value.
pub open spec fn text_members(s: Seq<(Seq<char>, JVal)>) -> Seq<char>
    decreases s, 1int,
{
    if s.len() == 0 {
        Seq::empty()
    } else if s.len() == 1 {
        text_str(s[0].0) + seq![':'] + text_of(s[0].1)
    } else {
        text_str(s[0].0) + seq![':'] + text_of(s[0].1) + seq![','] + text_members(
            s.subrange(1, s.len() as int),
        )
    }
}

pub proof fn lemma_text_items_snoc(s: Seq<JVal>)
    requires
        s.len() >= 2,
    ensures
        text_items(s) == text_items(s.drop_last()) + seq![','] + text_of(s.last()),
    decreases s.len(),
{
    if s.len() == 2 {
        assert(s.subrange(1, 2).len() == 1);
        assert(s.subrange(1, 2)[0] == s[1]);
        assert(s.drop_last().len() == 1);
        assert(s.drop_last()[0] == s[0]);
        assert(text_items(s.subrange(1, 2)) == text_of(s[1]));
        assert(text_items(s.drop_last()) == text_of(s[0]));
        assert(text_items(s) =~= text_items(s.drop_last()) + seq![','] + text_of(s.last()));
    } else {
        let t = s.subrange(1, s.len() as int);
        lemma_text_items_snoc(t);
        assert(s.drop_last().subrange(1, s.len() - 1) =~= t.drop_last());
        assert(s.drop_last()[0] == s[0]);
        assert(s.drop_last().len() == s.len() - 1);
        assert(t.last() == s.last());
        assert(text_items(s) =~= text_items(s.drop_last()) + seq![','] + text_of(s.last()));
    }
}

pub proof fn lemma_text_members_snoc(s: Seq<(Seq<char>, JVal)>)
    requires
        s.len() >= 2,
    ensures
        text_members(s) == text_members(s.drop_last()) + seq![','] + text_str(s.last().0) + seq![
            ':',
        ] + text_of(s.last().1),
    decreases s.len(),
{
    if s.len() == 2 {
        assert(s.subrange(1, 2).len() == 1);
        assert(s.subrange(1, 2)[0] == s[1]);
        assert(s.drop_last().len() == 1);
        assert(s.drop_last()[0] == s[0]);
        assert(text_members(s.subrange(1, 2)) == text_str(s[1].0) + seq![':'] + text_of(s[1].1));
        assert(text_members(s.drop_last()) == text_str(s[0].0) + seq![':'] + text_of(s[0].1));
        assert(text_members(s) =~= text_members(s.drop_last()) + seq![','] + text_str(s.last().0)
            + seq![':'] + text_of(s.last().1));
    } else {
        let t = s.subrange(1, s.len() as int);
        lemma_text_members_snoc(t);
        assert(s.drop_last().subrange(1, s.len() - 1) =~= t.drop_last());
        assert(s.drop_last()[0] == s[0]);
        assert(s.drop_last().len() == s.len() - 1);
        assert(t.last() == s.last());
        assert(text_members(s) =~= text_members(s.drop_last()) + seq![','] + text_str(s.last().0)
            + seq![':'] + text_of(s.last().1));
    }
}

pub proof fn lemma_esc_str_snoc(s: Seq<char>)
    requires
        s.len() > 0,
    ensures
        esc_str(s) == esc_str(s.drop_last()) + esc_char(s.last()),
    decreases s.len(),
{
    if s.len() == 1 {
        assert(s.drop_last() =~= Seq::<char>::empty());
        assert(s.subrange(1, 1) =~= Seq::<char>::empty());
        assert(esc_str(s) =~= esc_str(s.drop_last()) + esc_char(s.last()));
    } else {
        let t = s.subrange(1, s.len() as int);
        lemma_esc_str_snoc(t);
        assert(s.drop_last().subrange(1, s.len() - 1) =~= t.drop_last());
        assert(s.drop_last()[0] == s[0]);
        assert(t.last() == s.last());
        assert(esc_str(s) =~= esc_str(s.drop_last()) + esc_char(s.last()));
    }
}

/// Appends the decimal rendering of an unsigned integer.
fn push_digits(out: &mut String, n: u64)
    ensures
        final(out)@ == old(out)@ + dec_digits(n),
    decreases n,
{
    if n >= 10 {
        push_digits(out, n / 10);
    }
    let d = n % 10;
    let c: char = if d == 0 {
        '0'
    } else if d == 1 {
        '1'
    } else if d == 2 {
        '2'
    } else if d == 3 {
        '3'
    } else if d == 4 {
        '4'
    } else if d == 5 {
        '5'
    } else if d == 6 {
        '6'
    } else if d == 7 {
        '7'
    } else if d == 8 {
        '8'
    } else {
        '9'
    };
    push_char(out, c);
    proof {
        if n < 10 {
            assert(out@ =~= old(out)@ + dec_digits(n));
        } else {
            assert(out@ =~= old(out)@ + dec_digits(n));
        }
    }
}

/// Appends a quoted, escaped string.
fn push_text_str(out: &mut String, s: &String)
    ensures
        final(out)@ == old(out)@ + text_str(s@),
{
    let ghost base = out@;
    push_char(out, '"');
    let ghost prefix = out@;
    proof {
        assert(esc_str(s@.take(0)) =~= Seq::<char>::empty());
        assert(out@ =~= prefix + esc_str(s@.take(0)));
    }
    let n = s.as_str().unicode_len();
    let mut i: usize = 0;
    while i < n
        invariant
            n == s@.len(),
            i <= n,
            prefix == base.push('"'),
            out@ =~= prefix + esc_str(s@.take(i as int)),
        decreases n - i,
    {
        let c = s.as_str().get_char(i);
        if c == '"' || c == '\\' {
            push_char(out, '\\');
        }
        push_char(out, c);
        proof {
            lemma_esc_str_snoc(s@.take(i as int + 1));
            assert(s@.take(i as int + 1).drop_last() =~= s@.take(i as int));
            assert(s@.take(i as int + 1).last() == s@[i as int]);
            assert(out@ =~= prefix + esc_str(s@.take(i as int + 1)));
        }
        i += 1;
    }
    push_char(out, '"');
    proof {
        assert(s@.take(n as int) =~= s@);
        assert(out@ =~= base + text_str(s@));
    }
}

/// Appends the text of a tree.
pub fn render_into(j: &Json, out: &mut String)
    ensures
        final(out)@ == old(out)@ + text_of(j@),
    decreases j,
{
    let ghost base = out@;
    match j {
        Json::Null => {
            out.append("null");
            proof {
                assert(out@ =~= base + text_of(j@));
            }
        },
        Json::Bool(b) => {
            if *b {
                out.append("true");
            } else {
                out.append("false");
            }
            proof {
                assert(out@ =~= base + text_of(j@));
            }
        },
        Json::UInt(n) => {
            push_digits(out, *n);
        },
        Json::Str(s) => {
            push_text_str(out, s);
        },
        Json::Arr(items) => {
            push_char(out, '[');
            let ghost prefix = out@;
            proof {
                lemma_jvals_of(items@);
                assert(text_items(jvals_of(items@).take(0)) =~= Seq::<char>::empty());
                assert(out@ =~= prefix + text_items(jvals_of(items@).take(0)));
            }
            let mut i: usize = 0;
            while i < items.len()
                invariant
                    *j == Json::Arr(*items),
                    i <= items@.len(),
                    jvals_of(items@).len() == items@.len(),
                    forall|k: int|
                        0 <= k < items@.len() ==> jvals_of(items@)[k] == jval_of(items@[k]),
                    prefix == base.push('['),
                    out@ =~= prefix + text_items(jvals_of(items@).take(i as int)),
                decreases items@.len() - i,
            {
                if i > 0 {
                    push_char(out, ',');
                }
                proof {
                    assert(decreases_to!(*j => (*j)->Arr_0));
                    assert(decreases_to!((*j)->Arr_0 => (*j)->Arr_0@));
                    assert(decreases_to!((*j)->Arr_0@ => (*j)->Arr_0@[i as int]));
                }
                render_into(&items[i], out);
                proof {
                    if i == 0 {
                        assert(jvals_of(items@).take(1).len() == 1);
                        assert(jvals_of(items@).take(1)[0] == jval_of(items@[0]));
                        assert(out@ =~= prefix + text_items(jvals_of(items@).take(i as int + 1)));
                    } else {
                        lemma_text_items_snoc(jvals_of(items@).take(i as int + 1));
                        assert(jvals_of(items@).take(i as int + 1).drop_last() =~= jvals_of(
                            items@,
                        ).take(i as int));
                        assert(jvals_of(items@).take(i as int + 1).last() == jval_of(
                            items@[i as int],
                        ));
                        assert(out@ =~= prefix + text_items(jvals_of(items@).take(i as int + 1)));
                    }
                }
                i += 1;
            }
            push_char(out, ']');
            proof {
                assert(jvals_of(items@).take(items@.len() as int) =~= jvals_of(items@));
                assert(out@ =~= base + text_of(j@));
            }
        },
        Json::Obj(pairs) => {
            push_char(out, '{');
            let ghost prefix = out@;
            proof {
                lemma_jpairs_of(pairs@);
                assert(text_members(jpairs_of(pairs@).take(0)) =~= Seq::<char>::empty());
                assert(out@ =~= prefix + text_members(jpairs_of(pairs@).take(0)));
            }
            let mut i: usize = 0;
            while i < pairs.len()
                invariant
                    *j == Json::Obj(*pairs),
                    i <= pairs@.len(),
                    jpairs_of(pairs@).len() == pairs@.len(),
                    forall|k: int|
                        0 <= k < pairs@.len() ==> jpairs_of(pairs@)[k] == (
                        pairs@[k].0@,
                        jval_of(pairs@[k].1),
                        ),
                    prefix == base.push('{'),
                    out@ =~= prefix + text_members(jpairs_of(pairs@).take(i as int)),
                decreases pairs@.len() - i,
            {
                if i > 0 {
                    push_char(out, ',');
                }
                push_text_str(out, &pairs[i].0);
                push_char(out, ':');
                proof {
                    assert(decreases_to!(*j => (*j)->Obj_0));
                    assert(decreases_to!((*j)->Obj_0 => (*j)->Obj_0@));
                    assert(decreases_to!((*j)->Obj_0@ => (*j)->Obj_0@[i as int]));
                    assert(decreases_to!((*j)->Obj_0@[i as int] => (*j)->Obj_0@[i as int].1));
                }
                render_into(&pairs[i].1, out);
                proof {
                    if i == 0 {
                        assert(jpairs_of(pairs@).take(1).len() == 1);
                        assert(jpairs_of(pairs@).take(1)[0] == (
                            pairs@[0].0@,
                            jval_of(pairs@[0].1),
                        ));
                        assert(out@ =~= prefix + text_members(jpairs_of(pairs@).take(i as int + 1)));
                    } else {
                        lemma_text_members_snoc(jpairs_of(pairs@).take(i as int + 1));
                        assert(jpairs_of(pairs@).take(i as int + 1).drop_last() =~= jpairs_of(
                            pairs@,
                        ).take(i as int));
                        assert(jpairs_of(pairs@).take(i as int + 1).last() == (
                            pairs@[i as int].0@,
                            jval_of(pairs@[i as int].1),
                        ));
                        assert(out@ =~= prefix + text_members(jpairs_of(pairs@).take(i as int + 1)));
                    }
                }
                i += 1;
            }
            push_char(out, '}');
            proof {
                assert(jpairs_of(pairs@).take(pairs@.len() as int) =~= jpairs_of(pairs@));
                assert(out@ =~= base + text_of(j@));
            }
        },
    }
}

/// Renders a tree to its wire text.
pub fn render(j: &Json) -> (out: String)
    ensures
        out@ == text_of(j@),
{
    let mut out = String::new();
    render_into(j, &mut out);
    proof {
        assert(Seq::<char>::empty() + text_of(j@) =~= text_of(j@));
    }
    out
}

} // verus!
