use vstd::prelude::*;
use crate::stream::{actions_view, Action, ParserAction};

verus! {

#[verifier::external_type_specification]
#[verifier::external_body]
#[verifier::reject_recursive_types(N)]
pub struct ExParser<const N: usize>(vte::Parser<N>);

/// What a parser made by `vte::Parser::new` and fed the bytes `fed`, in
/// order, hands out (by `print`, `execute`, `csi_dispatch` and
/// `esc_dispatch`, in order) when it is fed `byte` next.
pub uninterp spec fn vte_step(fed: Seq<u8>, byte: u8) -> Seq<ParserAction>;

/// Records the actions that the parser hands out.
struct ActionLog {
    actions: Vec<Action>,
}

impl vte::Perform for ActionLog {
    #[verifier::external_body]
    fn print(&mut self, c: char) {
        self.actions.push(Action::Print(c));
    }

    #[verifier::external_body]
    fn execute(&mut self, byte: u8) {
        self.actions.push(Action::Execute(byte));
    }

    #[verifier::external_body]
    fn csi_dispatch(&mut self, params: &vte::Params, intermediates: &[u8], ignore: bool, action: char) {
        self.actions.push(
            Action::Csi(params.iter().map(|group| group.to_vec()).collect(), intermediates.to_vec(), ignore, action),
        );
    }

    #[verifier::external_body]
    fn esc_dispatch(&mut self, intermediates: &[u8], ignore: bool, byte: u8) {
        self.actions.push(Action::Esc(intermediates.to_vec(), ignore, byte));
    }
}

/// `vte::Parser::new`: promises nothing of the parser it makes beyond its
/// type; what it does is told by `vte_step`, on the bytes fed to it.
pub assume_specification[vte::Parser::new]() -> vte::Parser;

/// An escape-sequence decoder: a `vte::Parser` made by `vte::Parser::new`,
/// with the bytes fed to it so far.
pub struct Decoder {
    parser: vte::Parser,
    fed: Ghost<Seq<u8>>,
}

impl Decoder {
    /// The bytes fed to the decoder since it was made, in order.
    pub closed spec fn fed(&self) -> Seq<u8> {
        self.fed@
    }

    /// A decoder that has been fed nothing.
    pub fn new() -> (d: Decoder)
        ensures
            d.fed() == Seq::<u8>::empty(),
    {
        Decoder { parser: vte::Parser::new(), fed: Ghost(Seq::empty()) }
    }
}

/// Feeds `byte` to the decoder's parser with `vte::Parser::advance` and
/// returns the actions that the parser hands out on it, in order. The
/// contract claims that those are `vte_step` of the bytes fed before and of
/// `byte` (the parser's state is a function of the bytes fed since
/// `vte::Parser::new`), and that `byte` is now among the bytes fed.
#[verifier::external_body]
pub(crate) fn advance(dec: &mut Decoder, byte: u8) -> (acts: Vec<Action>)
    ensures
        final(dec).fed() == old(dec).fed().push(byte),
        actions_view(acts@) == vte_step(old(dec).fed(), byte),
{
    let mut log = ActionLog { actions: Vec::new() };
    dec.parser.advance(&mut log, byte);
    log.actions
}

} // verus!
