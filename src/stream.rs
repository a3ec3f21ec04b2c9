use vstd::prelude::*;
use vstd::string::*;

verus! {

/// One step of output while a generation streams in.
pub enum Action {
    /// Write this text, styled, to standard output.
    Write(String),
    /// Flush standard output, so that what was written shows at once.
    Flush,
    /// Print this line to standard error and go on with the stream.
    Report(String),
}

/// The mathematical form of an [`Action`].
pub enum ActionView {
    Write(Seq<char>),
    Flush,
    Report(Seq<char>),
}

impl View for Action {
    type V = ActionView;

    open spec fn view(&self) -> ActionView {
        match self {
            Action::Write(s) => ActionView::Write(s@),
            Action::Flush => ActionView::Flush,
            Action::Report(s) => ActionView::Report(s@),
        }
    }
}

/// One item of a generation stream: the text fragments of a batch, or the
/// message of a batch that failed.
pub type Batch = Result<Vec<String>, String>;

pub open spec fn batch_view(b: Batch) -> Result<Seq<Seq<char>>, Seq<char>> {
    match b {
        Ok(pieces) => Ok(pieces@.map_values(|p: String| p@)),
        Err(m) => Err(m@),
    }
}

pub open spec fn actions_view(a: Seq<Action>) -> Seq<ActionView> {
    a.map_values(|x: Action| x@)
}

pub open spec fn error_prefix() -> Seq<char> {
    seq![
        'E', 'r', 'r', 'o', 'r', ' ', 'd', 'u', 'r', 'i', 'n', 'g', ' ', 'g', 'e', 'n', 'e', 'r',
        'a', 't', 'i', 'o', 'n', ':', ' ',
    ]
}

/// Each fragment is written and then flushed, in order.
pub open spec fn fragment_actions(pieces: Seq<Seq<char>>) -> Seq<ActionView>
    decreases pieces.len(),
{
    if pieces.len() == 0 {
        Seq::empty()
    } else {
        fragment_actions(pieces.drop_last()) + seq![
            ActionView::Write(pieces.last()),
            ActionView::Flush,
        ]
    }
}

/// What one batch turns into: its fragments, or one diagnostic line.
pub open spec fn batch_actions_spec(b: Result<Seq<Seq<char>>, Seq<char>>) -> Seq<ActionView> {
    match b {
        Ok(pieces) => fragment_actions(pieces),
        Err(m) => seq![ActionView::Report(error_prefix() + m)],
    }
}

/// What a whole stream turns into: the batches' actions one after another.
pub open spec fn stream_actions_spec(batches: Seq<Result<Seq<Seq<char>>, Seq<char>>>) -> Seq<
    ActionView,
>
    decreases batches.len(),
{
    if batches.len() == 0 {
        Seq::empty()
    } else {
        stream_actions_spec(batches.drop_last()) + batch_actions_spec(batches.last())
    }
}

/// The diagnostic line for a batch that failed with `message`.
pub fn error_line(message: &str) -> (r: String)
    ensures
        r@ == error_prefix() + message@,
{
    let mut out = String::from_str("Error during generation: ");
    proof {
        reveal_strlit("Error during generation: ");
    }
    out.append(message);
    out
}

/// The output steps for one batch of the stream.
pub fn batch_actions(batch: &Batch) -> (r: Vec<Action>)
    ensures
        actions_view(r@) == batch_actions_spec(batch_view(*batch)),
{
    let mut out: Vec<Action> = Vec::new();
    match batch {
        Ok(pieces) => {
            let mut i: usize = 0;
            while i < pieces.len()
                invariant
                    i <= pieces.len(),
                    actions_view(out@) == fragment_actions(
                        pieces@.take(i as int).map_values(|p: String| p@),
                    ),
                decreases pieces.len() - i,
            {
                proof {
                    let ws = pieces@.take(i as int + 1).map_values(|p: String| p@);
                    assert(ws.drop_last() =~= pieces@.take(i as int).map_values(|p: String| p@));
                }
                out.push(Action::Write(pieces[i].clone()));
                out.push(Action::Flush);
                i = i + 1;
                proof {
                    let ws = pieces@.take(i as int).map_values(|p: String| p@);
                    assert(actions_view(out@) =~= fragment_actions(ws.drop_last()) + seq![
                        ActionView::Write(ws.last()),
                        ActionView::Flush,
                    ]);
                }
            }
            proof {
                assert(pieces@.take(pieces.len() as int) =~= pieces@);
            }
        },
        Err(message) => {
            out.push(Action::Report(error_line(message.as_str())));
            proof {
                assert(actions_view(out@) =~= seq![ActionView::Report(error_prefix() + message@)]);
            }
        },
    }
    out
}

pub open spec fn batches_view(batches: Seq<Batch>) -> Seq<Result<Seq<Seq<char>>, Seq<char>>> {
    batches.map_values(|b: Batch| batch_view(b))
}

/// The output steps for a whole stream, batch after batch.
pub fn stream_actions(batches: &Vec<Batch>) -> (r: Vec<Action>)
    ensures
        actions_view(r@) == stream_actions_spec(batches_view(batches@)),
{
    let mut out: Vec<Action> = Vec::new();
    let mut i: usize = 0;
    while i < batches.len()
        invariant
            i <= batches.len(),
            actions_view(out@) == stream_actions_spec(batches_view(batches@.take(i as int))),
        decreases batches.len() - i,
    {
        let mut step = batch_actions(&batches[i]);
        proof {
            let bs = batches_view(batches@.take(i as int + 1));
            assert(bs.drop_last() =~= batches_view(batches@.take(i as int)));
            assert(bs.last() == batch_view(batches@[i as int]));
            assert(actions_view(out@ + step@) =~= actions_view(out@) + actions_view(step@));
        }
        out.append(&mut step);
        i = i + 1;
    }
    proof {
        assert(batches@.take(batches.len() as int) =~= batches@);
    }
    out
}

/// The actions of two streams one after the other are those of the first
/// followed by those of the second.
pub proof fn stream_actions_concat(
    first: Seq<Result<Seq<Seq<char>>, Seq<char>>>,
    second: Seq<Result<Seq<Seq<char>>, Seq<char>>>,
)
    ensures
        stream_actions_spec(first + second) == stream_actions_spec(first) + stream_actions_spec(
            second,
        ),
    decreases second.len(),
{
    if second.len() == 0 {
        assert(first + second =~= first);
    } else {
        stream_actions_concat(first, second.drop_last());
        assert((first + second).drop_last() =~= first + second.drop_last());
        assert((first + second).last() == second.last());
    }
}

/// A failed batch does not end the stream: every batch, wherever it stands
/// and whatever failed before it, contributes its own actions in its place,
/// between those of the batches before and after it.
pub proof fn failed_batch_does_not_stop_stream(
    batches: Seq<Result<Seq<Seq<char>>, Seq<char>>>,
    i: int,
)
    requires
        0 <= i < batches.len(),
    ensures
        stream_actions_spec(batches) == stream_actions_spec(batches.take(i)) + batch_actions_spec(
            batches[i],
        ) + stream_actions_spec(batches.skip(i + 1)),
{
    let one = seq![batches[i]];
    assert(batches =~= batches.take(i) + one + batches.skip(i + 1));
    stream_actions_concat(batches.take(i) + one, batches.skip(i + 1));
    stream_actions_concat(batches.take(i), one);
    assert(one.drop_last() =~= Seq::<Result<Seq<Seq<char>>, Seq<char>>>::empty());
    assert(stream_actions_spec(one.drop_last()) =~= Seq::<ActionView>::empty());
    assert(one.last() == batches[i]);
    assert(stream_actions_spec(one) =~= batch_actions_spec(batches[i]));
}

/// Every fragment is written and then flushed at once, in stream order: the
/// `k`-th fragment is the `2k`-th action, and a flush follows it directly.
pub proof fn each_fragment_flushed(pieces: Seq<Seq<char>>, k: int)
    requires
        0 <= k < pieces.len(),
    ensures
        fragment_actions(pieces).len() == 2 * pieces.len(),
        fragment_actions(pieces)[2 * k] == ActionView::Write(pieces[k]),
        fragment_actions(pieces)[2 * k + 1] == ActionView::Flush,
    decreases pieces.len(),
{
    fragment_actions_len(pieces);
    if k < pieces.len() - 1 {
        each_fragment_flushed(pieces.drop_last(), k);
    }
}

proof fn fragment_actions_len(pieces: Seq<Seq<char>>)
    ensures
        fragment_actions(pieces).len() == 2 * pieces.len(),
    decreases pieces.len(),
{
    if pieces.len() > 0 {
        fragment_actions_len(pieces.drop_last());
    }
}

} // verus!
