//! Waiting for `dsh web` to become ready.
//!
//! The caller spawns the server, pumps the lines of both its output streams
//! into [`LaunchWatch::feed`] and stops at the first readiness line. The
//! watch keeps the last few other lines so that a server which exits
//! without becoming ready can explain itself ([`LaunchWatch::exit_error`]).

use vstd::prelude::*;

use crate::readiness::{parse_readiness_line, readiness_origin};
use crate::text::push_str;

verus! {

/// How many trailing output lines are kept for the failure message.
pub const TAIL_LINES: usize = 5;

/// The last `n` elements of `s` (all of `s` when it is shorter).
pub open spec fn keep_last(s: Seq<Seq<char>>, n: nat) -> Seq<Seq<char>> {
    if s.len() > n {
        s.skip(s.len() - n)
    } else {
        s
    }
}

/// The elements of `list` with `sep` between consecutive ones.
pub open spec fn join_with(list: Seq<Seq<char>>, sep: Seq<char>) -> Seq<char>
    decreases list.len(),
{
    if list.len() == 0 {
        Seq::empty()
    } else if list.len() == 1 {
        list[0]
    } else {
        join_with(list.drop_last(), sep) + sep + list.last()
    }
}

/// The output seen so far while waiting for the readiness line.
pub struct LaunchWatch {
    tail: Vec<String>,
}

impl View for LaunchWatch {
    type V = Seq<Seq<char>>;

    /// The kept lines, oldest first.
    closed spec fn view(&self) -> Seq<Seq<char>> {
        self.tail.deep_view()
    }
}

impl LaunchWatch {
    /// At most `TAIL_LINES` lines are kept.
    #[verifier::type_invariant]
    closed spec fn kept_lines_bounded(self) -> bool {
        self.tail@.len() <= 5
    }

    /// A watch that has seen no output.
    pub fn new() -> (w: LaunchWatch)
        ensures
            w@ == Seq::<Seq<char>>::empty(),
    {
        let w = LaunchWatch { tail: Vec::new() };
        assert(w@ =~= Seq::<Seq<char>>::empty());
        w
    }

    /// Takes one line of output. Returns the announced origin when it is a
    /// readiness line (see `parse_readiness_line`), and keeps the line among
    /// the last `TAIL_LINES` otherwise.
    pub fn feed(&mut self, line: String) -> (r: Option<String>)
        ensures
            r.deep_view() == readiness_origin(line@),
            r is Some ==> final(self)@ == old(self)@,
            r is None ==> final(self)@ == keep_last(old(self)@.push(line@), 5),
    {
        proof {
            use_type_invariant(&*self);
        }
        let origin: Option<String> = parse_readiness_line(line.as_str());
        if origin.is_some() {
            return origin;
        }
        let ghost before = self@;
        let mut tail: Vec<String> = Vec::new();
        std::mem::swap(&mut tail, &mut self.tail);
        if tail.len() >= TAIL_LINES {
            tail.remove(0);
            assert(tail.deep_view() =~= before.skip(1));
        }
        tail.push(line);
        assert(tail.deep_view() =~= keep_last(before.push(line@), 5));
        self.tail = tail;
        origin
    }

    /// The message for a server that exited before reporting its address:
    /// it quotes the kept lines, joined by ` ⏎ `, when there are any.
    pub fn exit_error(&self) -> (r: String)
        ensures
            r@ == exit_error_text(self@),
    {
        let mut r: String = String::from_str("dsh web 进程在报告就绪地址之前退出");
        let n: usize = self.tail.len();
        if n == 0 {
            return r;
        }
        push_str(&mut r, "。输出末尾：");
        let ghost head = r@;
        push_str(&mut r, self.tail[0].as_str());
        let mut i: usize = 1;
        assert(self@.subrange(0, 1).drop_last() =~= Seq::<Seq<char>>::empty());
        while i < n
            invariant
                n == self@.len(),
                1 <= i <= n,
                r@ == head + join_with(self@.subrange(0, i as int), " ⏎ "@),
            decreases n - i,
        {
            push_str(&mut r, " ⏎ ");
            push_str(&mut r, self.tail[i].as_str());
            assert(self@.subrange(0, i + 1).drop_last() =~= self@.subrange(0, i as int));
            i += 1;
        }
        assert(self@.subrange(0, n as int) =~= self@);
        r
    }
}

/// What is said of a server that exited before reporting its address.
pub open spec fn exit_error_text(tail: Seq<Seq<char>>) -> Seq<char> {
    if tail.len() == 0 {
        "dsh web 进程在报告就绪地址之前退出"@
    } else {
        "dsh web 进程在报告就绪地址之前退出"@ + "。输出末尾："@ + join_with(tail, " ⏎ "@)
    }
}

/// The two output streams of the server.
pub enum OutputStream {
    Stdout,
    Stderr,
}

/// The message for an output stream of the child that cannot be read.
pub fn stream_unavailable(stream: OutputStream) -> (r: String)
    ensures
        r@ == match stream {
            OutputStream::Stdout => "无法读取子进程 stdout"@,
            OutputStream::Stderr => "无法读取子进程 stderr"@,
        },
{
    match stream {
        OutputStream::Stdout => String::from_str("无法读取子进程 stdout"),
        OutputStream::Stderr => String::from_str("无法读取子进程 stderr"),
    }
}

/// Feeding lines one at a time keeps exactly the last five lines of the
/// whole history: trimming after every line is the same as trimming once.
pub proof fn lemma_tail_is_last_lines(history: Seq<Seq<char>>, line: Seq<char>)
    ensures
        keep_last(keep_last(history, 5).push(line), 5) == keep_last(history.push(line), 5),
{
    let h = history;
    if h.len() > 5 {
        assert(keep_last(h, 5).push(line) =~= h.skip(h.len() - 5).push(line));
        assert(keep_last(h.skip(h.len() - 5).push(line), 5) =~= h.push(line).skip(h.len() + 1 - 5));
    }
}

} // verus!
