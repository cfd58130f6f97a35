use vstd::prelude::*;
use crate::text::{string_from_chars, trim, trimmed};

verus! {

/// The pieces of `s` between `'\n'` characters: the completed ones, and the
/// one still open at the end.
pub open spec fn line_pieces(s: Seq<char>) -> (Seq<Seq<char>>, Seq<char>)
    decreases s.len(),
{
    if s.len() == 0 {
        (seq![], seq![])
    } else {
        let (done, open) = line_pieces(s.drop_last());
        if s.last() == '\n' {
            (done.push(open), seq![])
        } else {
            (done, open.push(s.last()))
        }
    }
}

/// The trimmed pieces that are not empty, in order.
pub open spec fn kept_lines(pieces: Seq<Seq<char>>) -> Seq<Seq<char>>
    decreases pieces.len(),
{
    if pieces.len() == 0 {
        seq![]
    } else {
        let before = kept_lines(pieces.drop_last());
        let t = trimmed(pieces.last());
        if t.len() > 0 {
            before.push(t)
        } else {
            before
        }
    }
}

/// The URLs of a pasted list: each line trimmed, blank lines dropped.
pub open spec fn url_list(s: Seq<char>) -> Seq<Seq<char>> {
    kept_lines(line_pieces(s).0.push(line_pieces(s).1))
}

/// The text of a URL list file: each URL followed by a newline.
pub open spec fn url_file_text(urls: Seq<Seq<char>>) -> Seq<char>
    decreases urls.len(),
{
    if urls.len() == 0 {
        seq![]
    } else {
        url_file_text(urls.drop_last()) + urls.last() + seq!['\n']
    }
}

pub open spec fn strings_view(v: Seq<String>) -> Seq<Seq<char>> {
    v.map_values(|s: String| s@)
}

fn keep_line(out: &mut Vec<String>, line: &Vec<char>)
    ensures
        strings_view(final(out)@) == if trimmed(line@).len() > 0 {
            strings_view(old(out)@).push(trimmed(line@))
        } else {
            strings_view(old(out)@)
        },
{
    let s = string_from_chars(line.as_slice());
    let t = trim(s.as_str());
    if t.unicode_len() > 0 {
        out.push(t);
        assert(strings_view(out@) =~= strings_view(old(out)@).push(trimmed(line@)));
    }
}

/// The URLs of a pasted list, one per line, trimmed, blank lines dropped.
/// A list with no URL at all is an error.
pub fn clean_urls(urls: &str) -> (r: Result<Vec<String>, String>)
    ensures
        match r {
            Ok(v) => strings_view(v@) == url_list(urls@) && v@.len() > 0,
            Err(e) => url_list(urls@).len() == 0 && e@ == "No valid URLs provided"@,
        },
{
    let cs = crate::text::chars_of(urls);
    let mut out: Vec<String> = Vec::new();
    let mut line: Vec<char> = Vec::new();
    let mut i: usize = 0;
    while i < cs.len()
        invariant
            i <= cs@.len(),
            cs@ == urls@,
            strings_view(out@) == kept_lines(line_pieces(cs@.take(i as int)).0),
            line@ == line_pieces(cs@.take(i as int)).1,
        decreases cs.len() - i,
    {
        assert(cs@.take(i + 1).drop_last() =~= cs@.take(i as int));
        let c = cs[i];
        if c == '\n' {
            let ghost done = line_pieces(cs@.take(i as int)).0;
            keep_line(&mut out, &line);
            assert(done.push(line@).drop_last() =~= done);
            line = Vec::new();
        } else {
            line.push(c);
        }
        i = i + 1;
    }
    assert(cs@.take(cs@.len() as int) =~= urls@);
    let ghost done = line_pieces(urls@).0;
    keep_line(&mut out, &line);
    assert(done.push(line@).drop_last() =~= done);
    if out.len() == 0 {
        Err(String::from_str("No valid URLs provided"))
    } else {
        Ok(out)
    }
}

/// The text of the URL list file.
pub fn url_file_content(urls: &Vec<String>) -> (r: String)
    ensures
        r@ == url_file_text(strings_view(urls@)),
{
    let mut out = String::new();
    let mut i: usize = 0;
    while i < urls.len()
        invariant
            i <= urls@.len(),
            out@ == url_file_text(strings_view(urls@.take(i as int))),
        decreases urls.len() - i,
    {
        assert(strings_view(urls@.take(i + 1)).drop_last() =~= strings_view(urls@.take(i as int)));
        out.append(urls[i].as_str());
        out.append("\n");
        proof {
            reveal_strlit("\n");
        }
        assert(out@ =~= url_file_text(strings_view(urls@.take(i + 1))));
        i = i + 1;
    }
    assert(urls@.take(urls@.len() as int) =~= urls@);
    out
}

} // verus!
