//! Streaming Response Decoder: an explicit state machine that consumes one
//! network chunk at a time, decodes the `data: ` lines of a server-sent-event
//! body, and yields at most one accumulated text fragment per chunk until the
//! terminating sentinel or a parse failure.

use crate::decode::obj_field;
use crate::errors::ApiError;
use crate::json::{
    json_error_text, json_of, parse_json, value_as_array, value_as_str, value_get, value_model,
    JsonSpec,
};
use vstd::prelude::*;

verus! {

/// The text split at every newline; the final segment (possibly empty) is
/// kept, so there is always at least one segment.
pub open spec fn split_lines(s: Seq<char>) -> Seq<Seq<char>>
    decreases s.len(),
{
    if s.len() == 0 {
        seq![Seq::<char>::empty()]
    } else if s.last() == '\n' {
        split_lines(s.drop_last()).push(Seq::<char>::empty())
    } else {
        let pre = split_lines(s.drop_last());
        pre.update(pre.len() - 1, pre.last().push(s.last()))
    }
}

/// A line carrying one event payload.
pub open spec fn is_data_line(line: Seq<char>) -> bool {
    line.len() >= 6 && line.take(6) == "data: "@
}

/// The payload of a data line, after the fixed prefix.
pub open spec fn data_payload(line: Seq<char>) -> Seq<char> {
    line.skip(6)
}

/// The sentinel payload that ends the stream.
pub open spec fn is_done_payload(p: Seq<char>) -> bool {
    p == "[DONE]"@
}

/// The delta text carried by one event document: the `content` of the `delta`
/// of the first choice, when that exact shape is present.
pub open spec fn delta_content_of_json(j: JsonSpec) -> Option<Seq<char>> {
    match j {
        JsonSpec::Obj(m) => match obj_field(m, "choices"@) {
            Some(JsonSpec::Arr(cs)) => if cs.len() > 0 {
                match cs[0] {
                    JsonSpec::Obj(cm) => match obj_field(cm, "delta"@) {
                        Some(JsonSpec::Obj(dm)) => match obj_field(dm, "content"@) {
                            Some(JsonSpec::Text(t)) => Some(t),
                            _ => None,
                        },
                        _ => None,
                    },
                    _ => None,
                }
            } else {
                None
            },
            _ => None,
        },
        _ => None,
    }
}

pub open spec fn newline_to_space(c: char) -> char {
    if c == '\n' {
        ' '
    } else {
        c
    }
}

/// Delta text as it joins the fragment: newlines become spaces.
pub open spec fn flatten_newlines(s: Seq<char>) -> Seq<char> {
    s.map_values(|c: char| newline_to_space(c))
}

/// What one chunk folds to: the accumulated fragment, whether the stream
/// ended, and whether a payload failed to parse. A parse failure ends the
/// stream and discards the chunk's fragment; the sentinel ends the stream but
/// keeps the fragment gathered before it; lines after either are not read.
pub struct ChunkOutcome {
    pub fragment: Seq<char>,
    pub done: bool,
    pub parse_error: bool,
}

pub open spec fn fold_lines(lines: Seq<Seq<char>>) -> ChunkOutcome
    decreases lines.len(),
{
    if lines.len() == 0 {
        ChunkOutcome { fragment: Seq::<char>::empty(), done: false, parse_error: false }
    } else if !is_data_line(lines[0]) {
        fold_lines(lines.drop_first())
    } else {
        let p = data_payload(lines[0]);
        if is_done_payload(p) {
            ChunkOutcome { fragment: Seq::<char>::empty(), done: true, parse_error: false }
        } else {
            match json_of(p) {
                None => ChunkOutcome {
                    fragment: Seq::<char>::empty(),
                    done: true,
                    parse_error: true,
                },
                Some(j) => {
                    let tail = fold_lines(lines.drop_first());
                    if tail.parse_error {
                        tail
                    } else {
                        let frag = match delta_content_of_json(j) {
                            Some(t) => flatten_newlines(t),
                            None => Seq::<char>::empty(),
                        };
                        ChunkOutcome {
                            fragment: frag + tail.fragment,
                            done: tail.done,
                            parse_error: false,
                        }
                    }
                },
            }
        }
    }
}

/// What one chunk yields to the consumer.
#[derive(Debug)]
pub struct ChunkOutput {
    pub fragment: Option<String>,
    pub done: bool,
}

fn str_eq(a: &str, b: &str) -> (r: bool)
    ensures
        r == (a@ == b@),
{
    let sa = String::from_str(a);
    let sb = String::from_str(b);
    sa == sb
}

fn split_lines_exec(s: &str) -> (r: Vec<String>)
    ensures
        r@.map_values(|l: String| l@) == split_lines(s@),
{
    let mut lines: Vec<String> = Vec::new();
    let mut cur = String::new();
    let n = s.unicode_len();
    let mut i: usize = 0;
    while i < n
        invariant
            i <= n,
            n == s@.len(),
            lines@.map_values(|l: String| l@).push(cur@) =~= split_lines(s@.take(i as int)),
        decreases n - i,
    {
        let ghost lines_pre = lines@;
        let ghost cur_pre = cur@;
        let c = s.get_char(i);
        if c == '\n' {
            lines.push(cur);
            cur = String::new();
        } else {
            cur.append(s.substring_char(i, i + 1));
        }
        i += 1;
        proof {
            assert(s@.take(i as int).drop_last() =~= s@.take(i - 1));
            assert(s@.take(i as int).last() == s@[i - 1]);
            if c == '\n' {
                assert(lines@.map_values(|l: String| l@).push(cur@) =~= lines_pre.map_values(
                    |l: String| l@,
                ).push(cur_pre).push(Seq::<char>::empty()));
            } else {
                assert(cur@ =~= cur_pre.push(s@[i - 1]));
                let pre = split_lines(s@.take(i - 1));
                assert(lines@.map_values(|l: String| l@).push(cur@) =~= pre.update(
                    pre.len() - 1,
                    pre.last().push(s@[i - 1]),
                ));
            }
        }
    }
    proof {
        assert(s@.take(n as int) =~= s@);
    }
    lines.push(cur);
    lines
}

fn append_flattened(out: &mut String, s: &str)
    ensures
        final(out)@ == old(out)@ + flatten_newlines(s@),
{
    let ghost base = out@;
    let n = s.unicode_len();
    let mut i: usize = 0;
    while i < n
        invariant
            i <= n,
            n == s@.len(),
            out@ == base + flatten_newlines(s@.take(i as int)),
        decreases n - i,
    {
        let ghost before = out@;
        let c = s.get_char(i);
        if c == '\n' {
            out.append(" ");
            proof {
                reveal_strlit(" ");
            }
        } else {
            out.append(s.substring_char(i, i + 1));
        }
        i += 1;
        proof {
            assert(out@ =~= before + seq![newline_to_space(s@[i - 1])]);
            assert(flatten_newlines(s@.take(i as int)) =~= flatten_newlines(s@.take(i - 1)) + seq![
                newline_to_space(s@[i - 1]),
            ]);
        }
    }
    proof {
        assert(s@.take(n as int) =~= s@);
    }
}

fn delta_content(v: &serde_json::Value) -> (r: Option<String>)
    ensures
        match delta_content_of_json(value_model(*v)) {
            Some(t) => r is Some && r->Some_0@ == t,
            None => r is None,
        },
{
    let choices = match value_get(v, "choices") {
        Some(cv) => cv,
        None => {
            return None;
        },
    };
    let arr = match value_as_array(choices) {
        Some(a) => a,
        None => {
            return None;
        },
    };
    if arr.len() == 0 {
        return None;
    }
    let delta = match value_get(&arr[0], "delta") {
        Some(dv) => dv,
        None => {
            return None;
        },
    };
    let content = match value_get(delta, "content") {
        Some(tv) => tv,
        None => {
            return None;
        },
    };
    match value_as_str(content) {
        Some(t) => Some(String::from_str(t)),
        None => None,
    }
}

/// The streaming decoder: pull-based and single-pass. Once `done`, no later
/// chunk produces anything.
pub struct StreamDecoder {
    pub done: bool,
}

impl StreamDecoder {
    pub fn new() -> (r: StreamDecoder)
        ensures
            !r.done,
    {
        StreamDecoder { done: false }
    }

    /// Decodes one network chunk. On a body that ends the stream (sentinel or
    /// parse failure) the decoder stays terminated for good; otherwise the
    /// chunk's delta texts are joined into at most one fragment, which is
    /// withheld when empty.
    pub fn process_chunk(&mut self, chunk: &str) -> (r: Result<ChunkOutput, ApiError>)
        ensures
            old(self).done ==> final(self).done && (r matches Ok(o) && o.fragment is None
                && o.done),
            !old(self).done ==> {
                let oc = fold_lines(split_lines(chunk@));
                &&& oc.parse_error ==> (r matches Err(e) && e is ResponseParseFailed)
                    && final(self).done
                &&& !oc.parse_error ==> final(self).done == oc.done && (r matches Ok(o) && o.done
                    == oc.done && (if oc.fragment.len() > 0 {
                    o.fragment matches Some(f) && f@ == oc.fragment
                } else {
                    o.fragment is None
                }))
            },
    {
        if self.done {
            return Ok(ChunkOutput { fragment: None, done: true });
        }
        let ghost all_lines = split_lines(chunk@);
        let ghost oc = fold_lines(all_lines);
        let lines = split_lines_exec(chunk);
        let mut frag = String::new();
        let mut i: usize = 0;
        proof {
            assert(all_lines.skip(0) =~= all_lines);
            assert(frag@ + oc.fragment =~= oc.fragment);
        }
        while i < lines.len()
            invariant
                i <= lines.len(),
                all_lines == lines@.map_values(|l: String| l@),
                all_lines == split_lines(chunk@),
                oc == fold_lines(all_lines),
                !old(self).done,
                !self.done,
                oc.parse_error == fold_lines(all_lines.skip(i as int)).parse_error,
                !oc.parse_error ==> {
                    &&& oc.fragment == frag@ + fold_lines(all_lines.skip(i as int)).fragment
                    &&& oc.done == fold_lines(all_lines.skip(i as int)).done
                },
            decreases lines.len() - i,
        {
            let ghost rest = all_lines.skip(i as int);
            proof {
                assert(rest.drop_first() =~= all_lines.skip(i + 1));
                assert(rest[0] == all_lines[i as int]);
                assert(all_lines[i as int] == lines@[i as int]@);
            }
            let line = &lines[i];
            let len = line.as_str().unicode_len();
            let is_data = if len >= 6 {
                let pre = line.as_str().substring_char(0, 6);
                proof {
                    assert(pre@ =~= rest[0].take(6));
                }
                str_eq(pre, "data: ")
            } else {
                false
            };
            if is_data {
                proof {
                    assert(is_data_line(rest[0]));
                }
                let payload = line.as_str().substring_char(6, len);
                proof {
                    assert(payload@ =~= data_payload(rest[0]));
                }
                if str_eq(payload, "[DONE]") {
                    self.done = true;
                    proof {
                        assert(fold_lines(rest).done && !fold_lines(rest).parse_error
                            && fold_lines(rest).fragment == Seq::<char>::empty());
                        assert(oc.fragment =~= frag@);
                    }
                    if frag.as_str().unicode_len() > 0 {
                        return Ok(ChunkOutput { fragment: Some(frag), done: true });
                    } else {
                        return Ok(ChunkOutput { fragment: None, done: true });
                    }
                }
                match parse_json(payload) {
                    Err(e) => {
                        self.done = true;
                        proof {
                            assert(fold_lines(rest).parse_error);
                        }
                        return Err(ApiError::ResponseParseFailed(json_error_text(&e)));
                    },
                    Ok(v) => {
                        let ghost frag_pre = frag@;
                        let ghost tail = fold_lines(rest.drop_first());
                        match delta_content(&v) {
                            Some(t) => {
                                append_flattened(&mut frag, t.as_str());
                                proof {
                                    assert(!tail.parse_error ==> fold_lines(rest).fragment
                                        =~= flatten_newlines(t@) + tail.fragment);
                                    assert(!tail.parse_error ==> frag_pre + (flatten_newlines(t@)
                                        + tail.fragment) =~= frag@ + tail.fragment);
                                }
                            },
                            None => {
                                proof {
                                    assert(!tail.parse_error ==> fold_lines(rest).fragment
                                        =~= tail.fragment);
                                }
                            },
                        }
                    },
                }
            } else {
                proof {
                    assert(fold_lines(rest) == fold_lines(rest.drop_first()));
                }
            }
            i += 1;
        }
        proof {
            assert(all_lines.skip(lines@.len() as int) =~= Seq::<Seq<char>>::empty());
            assert(!oc.parse_error && !oc.done);
            assert(oc.fragment =~= frag@);
        }
        if frag.as_str().unicode_len() > 0 {
            Ok(ChunkOutput { fragment: Some(frag), done: false })
        } else {
            Ok(ChunkOutput { fragment: None, done: false })
        }
    }
}

} // verus!
