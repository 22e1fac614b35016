use vstd::prelude::*;

use crate::text::{chars_of, is_space, is_space_char, string_of, views};

verus! {

/// The placeholder that a command template holds for the changed file.
pub open spec fn placeholder() -> Seq<char> {
    seq!['{', 'f', 'i', 'l', 'e', '}']
}

/// Whether `t` holds the placeholder at position `i`.
pub open spec fn placeholder_at(t: Seq<char>, i: int) -> bool {
    0 <= i && i + 6 <= t.len() && t.subrange(i, i + 6) == placeholder()
}

/// `t` with every placeholder, read left to right without overlap, replaced by `p`.
pub open spec fn substitute(t: Seq<char>, p: Seq<char>) -> Seq<char>
    decreases t.len(),
{
    if t.len() == 0 {
        seq![]
    } else if placeholder_at(t, 0) {
        p + substitute(t.skip(6), p)
    } else {
        seq![t[0]] + substitute(t.skip(1), p)
    }
}

/// The words of `s` that follow a word `cur` still being read: the maximal
/// runs of characters that are not white space.
pub open spec fn words_from(s: Seq<char>, cur: Seq<char>) -> Seq<Seq<char>>
    decreases s.len(),
{
    let done = if cur.len() == 0 {
        Seq::<Seq<char>>::empty()
    } else {
        seq![cur]
    };
    if s.len() == 0 {
        done
    } else if is_space(s[0]) {
        done + words_from(s.skip(1), seq![])
    } else {
        words_from(s.skip(1), cur.push(s[0]))
    }
}

/// The words of `s`, split at white space.
pub open spec fn words(s: Seq<char>) -> Seq<Seq<char>> {
    words_from(s, seq![])
}

/// Replaces every `{file}` in `template` with `path`.
pub fn expand_template(template: &str, path: &str) -> (r: String)
    ensures
        r@ == substitute(template@, path@),
{
    let t = chars_of(template);
    let p = chars_of(path);
    let mut out: Vec<char> = Vec::new();
    let mut i: usize = 0;
    proof {
        assert(t@.skip(0) =~= t@);
        assert(out@ + substitute(t@, p@) =~= substitute(t@, p@));
    }
    while i < t.len()
        invariant
            t@ == template@,
            p@ == path@,
            i <= t.len(),
            out@ + substitute(t@.skip(i as int), p@) == substitute(t@, p@),
        decreases t.len() - i,
    {
        let rest = Ghost(t@.skip(i as int));
        let ghost before = out@;
        if t.len() - i >= 6 && t[i] == '{' && t[i + 1] == 'f' && t[i + 2] == 'i' && t[i + 3]
            == 'l' && t[i + 4] == 'e' && t[i + 5] == '}' {
            proof {
                assert(rest@.subrange(0, 6) =~= placeholder());
                assert(rest@.skip(6) =~= t@.skip(i + 6));
            }
            let mut j: usize = 0;
            while j < p.len()
                invariant
                    j <= p.len(),
                    out@ == before + p@.take(j as int),
                decreases p.len() - j,
            {
                proof {
                    assert(p@.take(j + 1) =~= p@.take(j as int).push(p@[j as int]));
                }
                out.push(p[j]);
                j += 1;
            }
            proof {
                assert(p@.take(p.len() as int) =~= p@);
                assert(out@ + substitute(t@.skip(i + 6), p@) =~= before + substitute(rest@, p@));
            }
            i += 6;
        } else {
            proof {
                assert(!placeholder_at(rest@, 0)) by {
                    if placeholder_at(rest@, 0) {
                        let w = rest@.subrange(0, 6);
                        assert(w[0] == t@[i as int] && w[1] == t@[i + 1] && w[2] == t@[i + 2]);
                        assert(w[3] == t@[i + 3] && w[4] == t@[i + 4] && w[5] == t@[i + 5]);
                    }
                }
                assert(rest@.skip(1) =~= t@.skip(i + 1));
            }
            out.push(t[i]);
            proof {
                assert(out@ + substitute(t@.skip(i + 1), p@) =~= before + substitute(rest@, p@));
            }
            i += 1;
        }
    }
    string_of(&out)
}

/// Splits `s` into its words, at white space; no quoting is understood.
pub fn split_words(s: &str) -> (r: Vec<String>)
    ensures
        views(r@) == words(s@),
{
    let cs = chars_of(s);
    let mut out: Vec<String> = Vec::new();
    let mut cur: Vec<char> = Vec::new();
    let mut i: usize = 0;
    proof {
        assert(cs@.skip(0) =~= cs@);
        assert(views(out@) + words_from(cs@, cur@) =~= words(s@));
    }
    while i < cs.len()
        invariant
            cs@ == s@,
            i <= cs.len(),
            views(out@) + words_from(cs@.skip(i as int), cur@) == words(s@),
        decreases cs.len() - i,
    {
        let ghost rest = cs@.skip(i as int);
        let ghost before = views(out@);
        proof {
            assert(rest.skip(1) =~= cs@.skip(i + 1));
        }
        if is_space_char(cs[i]) {
            if cur.len() > 0 {
                let w = string_of(&cur);
                out.push(w);
                proof {
                    assert(views(out@) =~= before.push(cur@));
                    assert(views(out@) + words_from(cs@.skip(i + 1), seq![]) =~= before + (seq![
                        cur@,
                    ] + words_from(rest.skip(1), seq![])));
                }
            } else {
                proof {
                    assert(before + words_from(cs@.skip(i + 1), seq![]) =~= before + (
                    Seq::<Seq<char>>::empty() + words_from(rest.skip(1), seq![])));
                }
            }
            cur = Vec::new();
        } else {
            cur.push(cs[i]);
        }
        i += 1;
    }
    if cur.len() > 0 {
        let ghost before = views(out@);
        let w = string_of(&cur);
        out.push(w);
        proof {
            assert(views(out@) =~= before.push(cur@));
            assert(views(out@) =~= before + seq![cur@]);
        }
    } else {
        proof {
            assert(views(out@) =~= views(out@) + Seq::<Seq<char>>::empty());
        }
    }
    out
}

/// One command to run: a program and its arguments.
pub struct CommandLine {
    pub program: String,
    pub args: Vec<String>,
}

impl CommandLine {
    /// The command's words: the program, then each argument.
    pub open spec fn words(&self) -> Seq<Seq<char>> {
        seq![self.program@] + views(self.args@)
    }
}

/// The words of the command that `template` gives for the file `path`.
pub open spec fn command_words(template: Seq<char>, path: Seq<char>) -> Seq<Seq<char>> {
    words(substitute(template, path))
}

/// Resolves a command template against a file: substitutes the path and splits
/// the result at white space. A template that leaves no word gives no command.
pub fn resolve(template: &str, path: &str) -> (r: Option<CommandLine>)
    ensures
        r is None <==> command_words(template@, path@).len() == 0,
        r matches Some(c) ==> c.words() == command_words(template@, path@),
{
    let line = expand_template(template, path);
    let mut parts = split_words(line.as_str());
    if parts.len() == 0 {
        None
    } else {
        let ghost all = parts@;
        let program = parts.remove(0);
        proof {
            assert(views(all) =~= seq![program@] + views(parts@));
        }
        Some(CommandLine { program, args: parts })
    }
}

} // verus!
