//! The parser: splits a submitted line on the two-character conjunction
//! separator, then splits each segment on single spaces. The first
//! non-empty token of a segment is the program name, the later non-empty
//! tokens its arguments; a segment without tokens yields no command.

use vstd::prelude::*;

use crate::command::{Command, CommandModel};

verus! {

/// True when the conjunction separator starts at position `j` of `s`.
pub open spec fn sep_at(s: Seq<char>, j: int) -> bool {
    0 <= j && j + 2 <= s.len() && s[j] == '&' && s[j + 1] == '&'
}

/// The segments of `s` split on the separator, leftmost first, without
/// overlap. A line without a separator is one segment; each separator ends
/// the segment before it.
pub open spec fn split_segments(s: Seq<char>) -> Seq<Seq<char>>
    decreases s.len(),
{
    if s.len() >= 2 && s[0] == '&' && s[1] == '&' {
        seq![Seq::<char>::empty()] + split_segments(s.skip(2))
    } else if s.len() == 0 {
        seq![s]
    } else {
        let rest = split_segments(s.skip(1));
        seq![seq![s[0]] + rest[0]] + rest.skip(1)
    }
}

/// The non-empty tokens of a segment split on single spaces, in order.
pub open spec fn words_of(s: Seq<char>) -> Seq<Seq<char>>
    decreases s.len(),
{
    if s.len() == 0 {
        Seq::<Seq<char>>::empty()
    } else if s[0] == ' ' {
        words_of(s.skip(1))
    } else if s.len() == 1 || s[1] == ' ' {
        seq![seq![s[0]]] + words_of(s.skip(1))
    } else {
        let rest = words_of(s.skip(1));
        seq![seq![s[0]] + rest[0]] + rest.skip(1)
    }
}

/// The command a segment yields: none when it has no token, else its first
/// token as the program and the rest as arguments.
pub open spec fn segment_command(seg: Seq<char>) -> Seq<CommandModel> {
    let ws = words_of(seg);
    if ws.len() == 0 {
        Seq::<CommandModel>::empty()
    } else {
        seq![CommandModel { text: ws[0], args: ws.skip(1) }]
    }
}

/// The commands of a sequence of segments, in segment order.
pub open spec fn segments_commands(segs: Seq<Seq<char>>) -> Seq<CommandModel>
    decreases segs.len(),
{
    if segs.len() == 0 {
        Seq::<CommandModel>::empty()
    } else {
        segment_command(segs[0]) + segments_commands(segs.skip(1))
    }
}

/// The commands of a whole line.
pub open spec fn parsed(s: Seq<char>) -> Seq<CommandModel> {
    segments_commands(split_segments(s))
}

/// The models of a sequence of commands.
pub open spec fn commands_model(v: Seq<Command>) -> Seq<CommandModel> {
    v.map_values(|c: Command| c.model())
}

proof fn lemma_split_sep_found(t: Seq<char>, k: int)
    requires
        0 <= k,
        k + 2 <= t.len(),
        t[k] == '&',
        t[k + 1] == '&',
        forall|j: int| 0 <= j < k ==> !((#[trigger] t[j]) == '&' && t[j + 1] == '&'),
    ensures
        split_segments(t) == seq![t.subrange(0, k)] + split_segments(t.skip(k + 2)),
    decreases k,
{
    if k == 0 {
        assert(t.subrange(0, 0) =~= Seq::<char>::empty());
    } else {
        assert(!(t[0] == '&' && t[1] == '&'));
        let rest = split_segments(t.skip(1));
        assert(split_segments(t) == seq![seq![t[0]] + rest[0]] + rest.skip(1));
        let t1 = t.skip(1);
        assert forall|j: int| 0 <= j < k - 1 implies !((#[trigger] t1[j]) == '&' && t1[j + 1]
            == '&') by {
            assert(t1[j] == t[j + 1]);
            assert(t1[j + 1] == t[j + 2]);
        }
        lemma_split_sep_found(t1, k - 1);
        assert(t1.skip(k + 1) =~= t.skip(k + 2));
        assert(rest[0] == t1.subrange(0, k - 1));
        assert(seq![t[0]] + t1.subrange(0, k - 1) =~= t.subrange(0, k));
        assert(rest.skip(1) =~= split_segments(t.skip(k + 2)));
        assert(split_segments(t) =~= seq![t.subrange(0, k)] + split_segments(
            t.skip(k + 2),
        ));
    }
}

proof fn lemma_split_no_sep(t: Seq<char>)
    requires
        forall|j: int| !sep_at(t, j),
    ensures
        split_segments(t) == seq![t],
    decreases t.len(),
{
    if t.len() == 0 {
    } else {
        assert(!sep_at(t, 0));
        assert(!(t.len() >= 2 && t[0] == '&' && t[1] == '&'));
        let t1 = t.skip(1);
        assert forall|j: int| !sep_at(t1, j) by {
            if 0 <= j && j + 2 <= t1.len() {
                assert(!sep_at(t, j + 1));
                assert(t1[j] == t[j + 1]);
                assert(t1[j + 1] == t[j + 2]);
            }
        }
        lemma_split_no_sep(t1);
        let rest = split_segments(t1);
        assert(rest == seq![t1]);
        assert(seq![t[0]] + t1 =~= t);
        assert(split_segments(t) =~= seq![t]);
    }
}

proof fn lemma_words_skip_space(t: Seq<char>)
    requires
        t.len() >= 1,
        t[0] == ' ',
    ensures
        words_of(t) == words_of(t.skip(1)),
{
}

proof fn lemma_words_word(t: Seq<char>, k: int)
    requires
        1 <= k <= t.len(),
        forall|m: int| 0 <= m < k ==> t[m] != ' ',
        k == t.len() || t[k] == ' ',
    ensures
        words_of(t) == seq![t.subrange(0, k)] + words_of(t.skip(k)),
    decreases k,
{
    if k == 1 {
        assert(t.subrange(0, 1) =~= seq![t[0]]);
    } else {
        assert(t[1] != ' ');
        assert(t.len() >= 2);
        let rest = words_of(t.skip(1));
        assert(words_of(t) == seq![seq![t[0]] + rest[0]] + rest.skip(1));
        let t1 = t.skip(1);
        assert forall|m: int| 0 <= m < k - 1 implies t1[m] != ' ' by {
            assert(t1[m] == t[m + 1]);
        }
        assert(k - 1 == t1.len() || t1[k - 1] == ' ');
        lemma_words_word(t1, k - 1);
        assert(rest[0] == t1.subrange(0, k - 1));
        assert(seq![t[0]] + t1.subrange(0, k - 1) =~= t.subrange(0, k));
        assert(t1.skip(k - 1) =~= t.skip(k));
        assert(words_of(t) =~= seq![t.subrange(0, k)] + words_of(t.skip(k)));
    }
}

/// Collects the non-empty space-separated tokens of a segment.
fn segment_words(seg: &str) -> (ws: Vec<String>)
    ensures
        ws.deep_view() == words_of(seg@),
{
    let n = seg.unicode_len();
    let mut ws: Vec<String> = Vec::new();
    let mut i: usize = 0;
    proof {
        assert(seg@.skip(0) =~= seg@);
        assert(ws.deep_view() =~= Seq::<Seq<char>>::empty());
    }
    while i < n
        invariant
            n == seg@.len(),
            0 <= i <= n,
            words_of(seg@) == ws.deep_view() + words_of(seg@.skip(i as int)),
        decreases n - i,
    {
        if seg.get_char(i) == ' ' {
            proof {
                lemma_words_skip_space(seg@.skip(i as int));
                assert(seg@.skip(i as int).skip(1) =~= seg@.skip(i + 1));
            }
            i += 1;
        } else {
            let mut j = i + 1;
            loop
                invariant_except_break
                    n == seg@.len(),
                    i < j <= n,
                    forall|m: int| i <= m < j ==> seg@[m] != ' ',
                ensures
                    i < j <= n,
                    forall|m: int| i <= m < j ==> seg@[m] != ' ',
                    j == n || seg@[j as int] == ' ',
                decreases n - j,
            {
                if j == n {
                    break;
                }
                if seg.get_char(j) == ' ' {
                    break;
                }
                j += 1;
            }
            let word = String::from_str(seg.substring_char(i, j));
            let ghost before = ws.deep_view();
            ws.push(word);
            proof {
                let t = seg@.skip(i as int);
                let k = j - i;
                assert forall|m: int| 0 <= m < k implies t[m] != ' ' by {
                    assert(t[m] == seg@[i + m]);
                }
                lemma_words_word(t, k);
                assert(t.subrange(0, k) =~= seg@.subrange(i as int, j as int));
                assert(t.skip(k) =~= seg@.skip(j as int));
                assert(ws.deep_view() =~= before.push(seg@.subrange(
                    i as int,
                    j as int,
                )));
                assert(ws.deep_view() + words_of(seg@.skip(j as int)) =~= before
                    + words_of(seg@.skip(i as int)));
            }
            i = j;
        }
    }
    proof {
        assert(seg@.skip(n as int) =~= Seq::<char>::empty());
        assert(ws.deep_view() + words_of(seg@.skip(n as int)) =~= ws.deep_view());
    }
    ws
}

/// Appends the command of one segment, if the segment has any token.
fn parse_segment_into(seg: &str, res: &mut Vec<Command>)
    ensures
        commands_model(final(res)@) == commands_model(old(res)@) + segment_command(
            seg@,
        ),
{
    let words = segment_words(seg);
    if words.len() == 0 {
        proof {
            assert(words_of(seg@).len() == 0);
            assert(commands_model(res@) =~= commands_model(res@) + segment_command(
                seg@,
            ));
        }
        return;
    }
    let mut c = Command::default();
    c.set_command(words[0].clone());
    let mut j: usize = 1;
    while j < words.len()
        invariant
            1 <= j <= words.len(),
            c.text() == words.deep_view()[0],
            c.args_view() =~= words.deep_view().subrange(1, j as int),
        decreases words.len() - j,
    {
        let ghost before = c.args_view();
        c.add_arg(words[j].clone());
        proof {
            assert(c.args_view() =~= before.push(words@[j as int]@));
            assert(c.args_view() =~= words.deep_view().subrange(1, j + 1));
        }
        j += 1;
    }
    let ghost prior = res@;
    res.push(c);
    proof {
        let ws = words_of(seg@);
        assert(c.args_view() =~= ws.skip(1));
        assert(c.model() =~= CommandModel { text: ws[0], args: ws.skip(1) });
        assert(commands_model(res@) =~= commands_model(prior) + segment_command(
            seg@,
        ));
    }
}

/// Parses a line into its commands: segments split on the separator, each
/// segment's first non-empty token the program, the rest its arguments.
pub fn parse(command: &str) -> (res: Vec<Command>)
    ensures
        commands_model(res@) == parsed(command@),
{
    let n = command.unicode_len();
    let mut res: Vec<Command> = Vec::new();
    let mut seg_start: usize = 0;
    let mut i: usize = 0;
    proof {
        assert(command@.skip(0) =~= command@);
        assert(commands_model(res@) =~= Seq::<CommandModel>::empty());
    }
    while i < n
        invariant
            n == command@.len(),
            0 <= seg_start <= i <= n,
            forall|j: int| seg_start <= j < i ==> !sep_at(command@, j),
            parsed(command@) == commands_model(res@) + segments_commands(
                split_segments(command@.skip(seg_start as int)),
            ),
        decreases n - i,
    {
        if 2 <= n - i && command.get_char(i) == '&' && command.get_char(i + 1) == '&' {
            let seg = command.substring_char(seg_start, i);
            proof {
                let t = command@.skip(seg_start as int);
                let k = i - seg_start;
                assert(t[k] == command@[i as int]);
                assert(t[k + 1] == command@[i + 1]);
                assert forall|j: int| 0 <= j < k implies !((#[trigger] t[j]) == '&' && t[j + 1]
                    == '&') by {
                    assert(!sep_at(command@, seg_start + j));
                    assert(t[j] == command@[seg_start + j]);
                    assert(t[j + 1] == command@[seg_start + j + 1]);
                }
                lemma_split_sep_found(t, k);
                assert(t.subrange(0, k) =~= seg@);
                assert(t.skip(k + 2) =~= command@.skip(i + 2));
                let segs = seq![seg@] + split_segments(command@.skip(i + 2));
                assert(segs.skip(1) =~= split_segments(command@.skip(i + 2)));
                assert(segments_commands(segs) == segment_command(seg@)
                    + segments_commands(split_segments(command@.skip(i + 2))));
            }
            parse_segment_into(seg, &mut res);
            proof {
                assert(parsed(command@) =~= commands_model(res@) + segments_commands(
                    split_segments(command@.skip(i + 2)),
                ));
            }
            i += 2;
            seg_start = i;
        } else {
            proof {
                if sep_at(command@, i as int) {
                    assert(2 <= n - i);
                    assert(command@[i as int] == '&' && command@[i + 1] == '&');
                    assert(false);
                }
            }
            i += 1;
        }
    }
    let seg = command.substring_char(seg_start, n);
    proof {
        let t = command@.skip(seg_start as int);
        assert forall|j: int| !sep_at(t, j) by {
            if 0 <= j && j + 2 <= t.len() {
                assert(!sep_at(command@, seg_start + j));
                assert(t[j] == command@[seg_start + j]);
                assert(t[j + 1] == command@[seg_start + j + 1]);
            }
        }
        lemma_split_no_sep(t);
        assert(t =~= seg@);
        let segs = seq![seg@];
        assert(segs.skip(1) =~= Seq::<Seq<char>>::empty());
        assert(segments_commands(segs) == segment_command(seg@) + segments_commands(
            Seq::<Seq<char>>::empty(),
        ));
        assert(segment_command(seg@) + Seq::<CommandModel>::empty() =~= segment_command(
            seg@,
        ));
    }
    parse_segment_into(seg, &mut res);
    proof {
        assert(commands_model(res@) =~= parsed(command@));
    }
    res
}

} // verus!
