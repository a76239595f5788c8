use vstd::prelude::*;
use crate::grid::csi::{csi_spec, dispatch_defined, firsts, groups_view};
use crate::grid::{esc_spec, execute_spec, put_char_spec, GridState, TerminalGrid};
use crate::decoder::{advance, vte_step, Decoder};

verus! {

/// An action of the escape-sequence parser, with what it carries.
#[derive(Debug)]
pub enum Action {
    /// A printable character.
    Print(char),
    /// A C0 or C1 control byte.
    Execute(u8),
    /// A control sequence: parameter groups, intermediate bytes, the
    /// parser's `ignore` flag and the final character.
    Csi(Vec<Vec<u16>>, Vec<u8>, bool, char),
    /// An escape sequence: intermediate bytes, the `ignore` flag and the
    /// final byte.
    Esc(Vec<u8>, bool, u8),
}

/// What an `Action` holds.
pub enum ParserAction {
    Print(char),
    Execute(u8),
    Csi(Seq<Seq<u16>>, Seq<u8>, bool, char),
    Esc(Seq<u8>, bool, u8),
}

/// What the action `a` holds.
pub open spec fn action_view(a: Action) -> ParserAction {
    match a {
        Action::Print(c) => ParserAction::Print(c),
        Action::Execute(b) => ParserAction::Execute(b),
        Action::Csi(groups, intermediates, ignore, action) => ParserAction::Csi(
            groups_view(groups@),
            intermediates@,
            ignore,
            action,
        ),
        Action::Esc(intermediates, ignore, b) => ParserAction::Esc(intermediates@, ignore, b),
    }
}

/// What the actions `acts` hold, in order.
pub open spec fn actions_view(acts: Seq<Action>) -> Seq<ParserAction> {
    acts.map_values(|a: Action| action_view(a))
}

/// The grid state after `a`.
pub open spec fn apply_action(g: GridState, a: ParserAction) -> GridState {
    match a {
        ParserAction::Print(c) => put_char_spec(g, c),
        ParserAction::Execute(b) => execute_spec(g, b),
        ParserAction::Esc(intermediates, ignore, b) => esc_spec(g, b),
        ParserAction::Csi(groups, intermediates, ignore, action) => csi_spec(g, firsts(groups), intermediates, action),
    }
}

/// The grid state after the actions `acts`, in order.
pub open spec fn apply_actions(g: GridState, acts: Seq<ParserAction>) -> GridState
    decreases acts.len(),
{
    if acts.len() == 0 {
        g
    } else {
        apply_action(apply_actions(g, acts.drop_last()), acts.last())
    }
}

/// `a` is defined on `g`: a tab needs a column, and a control sequence
/// must be defined (see `dispatch_defined`).
pub open spec fn action_defined(g: GridState, a: ParserAction) -> bool {
    match a {
        ParserAction::Execute(b) => b == 0x09 ==> g.cols > 0,
        ParserAction::Csi(groups, intermediates, ignore, action) => dispatch_defined(g, groups, intermediates, action),
        _ => true,
    }
}

/// Each of the actions `acts` is defined on the state the ones before it
/// leave.
pub open spec fn all_defined(g: GridState, acts: Seq<ParserAction>) -> bool
    decreases acts.len(),
{
    acts.len() > 0 ==> {
        &&& all_defined(g, acts.drop_last())
        &&& action_defined(apply_actions(g, acts.drop_last()), acts.last())
    }
}

/// `all_defined` holds of every prefix of a list of actions it holds of.
proof fn lemma_all_defined_prefix(g: GridState, acts: Seq<ParserAction>, k: int)
    requires
        0 <= k <= acts.len(),
        all_defined(g, acts),
    ensures
        all_defined(g, acts.take(k)),
    decreases acts.len(),
{
    if k < acts.len() {
        lemma_all_defined_prefix(g, acts.drop_last(), k);
        assert(acts.drop_last().take(k) =~= acts.take(k));
    } else {
        assert(acts.take(k) =~= acts);
    }
}

/// `a` saves the cursor: `ESC 7`, or `CSI s` without intermediate bytes.
pub open spec fn saves_cursor(a: ParserAction) -> bool {
    match a {
        ParserAction::Esc(intermediates, ignore, b) => b == 0x37,
        ParserAction::Csi(groups, intermediates, ignore, action) => intermediates.len() == 0 && action == 's',
        _ => false,
    }
}

/// What a parser made by `vte::Parser::new` and fed `fed` hands out when it
/// is then fed `bytes`, in order.
pub open spec fn vte_run(fed: Seq<u8>, bytes: Seq<u8>) -> Seq<ParserAction>
    decreases bytes.len(),
{
    if bytes.len() == 0 {
        Seq::empty()
    } else {
        vte_run(fed, bytes.drop_last()) + vte_step(fed + bytes.drop_last(), bytes.last())
    }
}

/// Feeds `bytes` to the decoder, in order, and returns all the actions its
/// parser hands out, in order.
pub fn parse_bytes(dec: &mut Decoder, bytes: &[u8]) -> (acts: Vec<Action>)
    ensures
        final(dec).fed() == old(dec).fed() + bytes@,
        actions_view(acts@) == vte_run(old(dec).fed(), bytes@),
{
    let mut acts: Vec<Action> = Vec::new();
    let mut i: usize = 0;
    assert(bytes@.take(0) =~= Seq::<u8>::empty());
    assert(actions_view(acts@) =~= Seq::<ParserAction>::empty());
    assert(old(dec).fed() + bytes@.take(0) =~= old(dec).fed());
    while i < bytes.len()
        invariant
            i <= bytes@.len(),
            dec.fed() == old(dec).fed() + bytes@.take(i as int),
            actions_view(acts@) == vte_run(old(dec).fed(), bytes@.take(i as int)),
        decreases bytes@.len() - i,
    {
        let ghost before = acts@;
        let mut more = advance(dec, bytes[i]);
        let ghost step = more@;
        acts.append(&mut more);
        proof {
            let taken = bytes@.take(i + 1);
            assert(taken.drop_last() =~= bytes@.take(i as int));
            assert(taken.last() == bytes@[i as int]);
            assert(old(dec).fed() + taken =~= old(dec).fed() + bytes@.take(i as int) + seq![bytes@[i as int]]);
            assert(acts@ =~= before + step);
            assert(actions_view(before + step) =~= actions_view(before) + actions_view(step));
        }
        i = i + 1;
    }
    assert(bytes@.take(bytes@.len() as int) =~= bytes@);
    acts
}

impl TerminalGrid {
    /// Applies the parser actions `acts` in order. Where an action is not
    /// defined on the state reached (see `action_defined`), it stops there
    /// and returns its index.
    pub fn apply_parsed(&mut self, acts: &[Action]) -> (res: Result<(), usize>)
        requires
            old(self).wf(),
        ensures
            final(self).wf(),
            res is Ok <==> all_defined(old(self)@, actions_view(acts@)),
            res is Ok ==> final(self)@ == apply_actions(old(self)@, actions_view(acts@)),
            res matches Err(i) ==> {
                &&& i < acts@.len()
                &&& all_defined(old(self)@, actions_view(acts@).take(i as int))
                &&& final(self)@ == apply_actions(old(self)@, actions_view(acts@).take(i as int))
                &&& !action_defined(final(self)@, action_view(acts@[i as int]))
            },
    {
        let ghost view = actions_view(acts@);
        let mut i: usize = 0;
        assert(view.take(0) =~= Seq::<ParserAction>::empty());
        while i < acts.len()
            invariant
                i <= acts@.len(),
                view == actions_view(acts@),
                self.wf(),
                all_defined(old(self)@, view.take(i as int)),
                self@ == apply_actions(old(self)@, view.take(i as int)),
            decreases acts@.len() - i,
        {
            let ghost before = self@;
            assert(view[i as int] == action_view(acts@[i as int]));
            assert(view.take(i + 1).drop_last() =~= view.take(i as int));
            assert(view.take(i + 1).last() == view[i as int]);
            match &acts[i] {
                Action::Print(c) => {
                    self.print(*c);
                },
                Action::Execute(b) => {
                    if *b == 0x09 && self.cols == 0 {
                        proof {
                            if all_defined(old(self)@, view) {
                                lemma_all_defined_prefix(old(self)@, view, i + 1);
                            }
                        }
                        return Err(i);
                    }
                    self.execute(*b);
                },
                Action::Csi(groups, intermediates, ignore, action) => {
                    if !self.try_csi_dispatch_groups(groups, intermediates.as_slice(), *action) {
                        proof {
                            if all_defined(old(self)@, view) {
                                lemma_all_defined_prefix(old(self)@, view, i + 1);
                            }
                        }
                        return Err(i);
                    }
                },
                Action::Esc(intermediates, ignore, b) => {
                    self.esc_dispatch(intermediates.as_slice(), *ignore, *b);
                },
            }
            i = i + 1;
        }
        assert(view.take(acts@.len() as int) =~= view);
        Ok(())
    }
}

} // verus!
