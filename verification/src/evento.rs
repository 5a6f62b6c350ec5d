//! Semantic events: the ordered observable record of one tick. Each event
//! names its category and the side and roster indices involved; rendering
//! them as text is the presentation layer's business, not the engine's.

use vstd::prelude::*;

verus! {

use crate::jogador::Jogador;

/// One of the two sides of the match.
#[derive(Debug, Clone, Copy, PartialEq, Eq, Structural)]
pub enum Lado {
    A,
    B,
}

/// The other side.
pub open spec fn oposto(lado: Lado) -> Lado {
    match lado {
        Lado::A => Lado::B,
        Lado::B => Lado::A,
    }
}

/// The other side, executable form.
pub fn lado_oposto(lado: Lado) -> (r: Lado)
    ensures
        r == oposto(lado),
{
    match lado {
        Lado::A => Lado::B,
        Lado::B => Lado::A,
    }
}

/// One observable event of a tick. `lado` is the side of the agent the event
/// is about: for attacking events the possessing side, for fouls and cards
/// the defending side that committed them. `jogador` and `defensor` are
/// indices into that side's (respectively the opposing side's) roster.
#[derive(Debug, Clone, Copy, PartialEq, Eq, Structural)]
pub enum Evento {
    /// Every eligible agent of the possessing side is sent off: no action
    /// this tick.
    SemJogadorElegivel { lado: Lado },
    /// Every eligible agent of the defending side is sent off: no
    /// interception and no foul are possible this tick.
    SemDefensorElegivel { lado: Lado },
    PasseCompleto { lado: Lado, jogador: usize },
    PasseInterceptado { lado: Lado, jogador: usize, defensor: usize },
    /// The pass failed and the ball left play over a touchline.
    PasseNaLateral { lado: Lado, jogador: usize },
    DribleCompleto { lado: Lado, jogador: usize },
    DribleInterceptado { lado: Lado, jogador: usize, defensor: usize },
    /// The dribble itself failed: possession is lost with no separate
    /// interception roll.
    DribleFalhou { lado: Lado, jogador: usize },
    ChuteNaTrave { lado: Lado, jogador: usize },
    ChuteDefendidoEscanteio { lado: Lado, jogador: usize },
    ChuteDefendidoSeguro { lado: Lado, jogador: usize },
    Gol { lado: Lado, jogador: usize },
    /// An on-target shot that neither hit a post nor crossed inside the goal
    /// mouth: explicitly no goal.
    ChuteForaDoGol { lado: Lado, jogador: usize },
    /// A missed shot that left play over a touchline.
    ChuteNaLateral { lado: Lado, jogador: usize },
    /// A missed shot that left play over the goal line, wide of the goal.
    ChuteNaLinhaDeFundo { lado: Lado, jogador: usize },
    /// A missed shot that stayed in play.
    ChuteFora { lado: Lado, jogador: usize },
    Falta { lado: Lado, defensor: usize },
    CartaoAmarelo { lado: Lado, defensor: usize },
    CartaoVermelho { lado: Lado, defensor: usize },
}

/// The statistic counters an event feeds.
#[derive(Debug, Clone, Copy, PartialEq, Eq, Structural)]
pub enum Marcador {
    Gol,
    ChuteNoGol,
    Escanteio,
    Falta,
    CartaoAmarelo,
    CartaoVermelho,
}

/// Whether the event counts towards the given side's counter of the given
/// statistic. Every shot that passed the shot check — on the posts, saved,
/// scored or off the frame — counts as a shot on goal.
pub open spec fn marca(e: Evento, lado: Lado, m: Marcador) -> bool {
    match m {
        Marcador::Gol => e matches Evento::Gol { lado: l, .. } && l == lado,
        Marcador::ChuteNoGol => {
            ||| e matches Evento::ChuteNaTrave { lado: l, .. } && l == lado
            ||| e matches Evento::ChuteDefendidoEscanteio { lado: l, .. } && l == lado
            ||| e matches Evento::ChuteDefendidoSeguro { lado: l, .. } && l == lado
            ||| e matches Evento::Gol { lado: l, .. } && l == lado
            ||| e matches Evento::ChuteForaDoGol { lado: l, .. } && l == lado
        },
        Marcador::Escanteio => e matches Evento::ChuteDefendidoEscanteio { lado: l, .. } && l
            == lado,
        Marcador::Falta => e matches Evento::Falta { lado: l, .. } && l == lado,
        Marcador::CartaoAmarelo => e matches Evento::CartaoAmarelo { lado: l, .. } && l == lado,
        Marcador::CartaoVermelho => e matches Evento::CartaoVermelho { lado: l, .. } && l == lado,
    }
}

/// How many events of the sequence feed the given side's counter of the
/// given statistic.
pub open spec fn contar(eventos: Seq<Evento>, lado: Lado, m: Marcador) -> nat
    decreases eventos.len(),
{
    if eventos.len() == 0 {
        0
    } else {
        contar(eventos.drop_last(), lado, m) + if marca(eventos.last(), lado, m) {
            1nat
        } else {
            0nat
        }
    }
}

/// Appending one event raises each count by one exactly when the event
/// marks that count.
pub proof fn lema_contar_push(eventos: Seq<Evento>, e: Evento, lado: Lado, m: Marcador)
    ensures
        contar(eventos.push(e), lado, m) == contar(eventos, lado, m) + if marca(e, lado, m) {
            1nat
        } else {
            0nat
        },
{
    assert(eventos.push(e).drop_last() =~= eventos);
    assert(eventos.push(e).last() == e);
}

/// Counting distributes over concatenation of event sequences.
pub proof fn lema_contar_concat(a: Seq<Evento>, b: Seq<Evento>, lado: Lado, m: Marcador)
    ensures
        contar(a + b, lado, m) == contar(a, lado, m) + contar(b, lado, m),
    decreases b.len(),
{
    if b.len() == 0 {
        assert(a + b =~= a);
    } else {
        lema_contar_concat(a, b.drop_last(), lado, m);
        assert((a + b).drop_last() =~= a + b.drop_last());
        assert((a + b).last() == b.last());
    }
}

/// Counting distributes over concatenation, for every side and statistic
/// at once.
pub proof fn lema_contar_concat_todos(a: Seq<Evento>, b: Seq<Evento>)
    ensures
        forall|lado: Lado, m: Marcador|
            #[trigger] contar(a + b, lado, m) == contar(a, lado, m) + contar(b, lado, m),
{
    assert forall|lado: Lado, m: Marcador|
        #[trigger] contar(a + b, lado, m) == contar(a, lado, m) + contar(b, lado, m) by {
        lema_contar_concat(a, b, lado, m);
    }
}

/// True when the position `i` names an agent of the roster that is still
/// eligible: on the squad and not sent off.
pub open spec fn elegivel_em(time: Seq<Jogador>, i: int) -> bool {
    &&& 0 <= i < time.len()
    &&& !time[i].red_card
}

/// The roster of the given side, out of the two.
pub open spec fn roster_de(l: Lado, time_a: Seq<Jogador>, time_b: Seq<Jogador>) -> Seq<Jogador> {
    match l {
        Lado::A => time_a,
        Lado::B => time_b,
    }
}

/// True when every agent the event names was eligible on its side when the
/// tick began: a sent-off agent is never an active participant or defender.
pub open spec fn evento_respeita(e: Evento, time_a: Seq<Jogador>, time_b: Seq<Jogador>) -> bool {
    match e {
        Evento::SemJogadorElegivel { .. } => true,
        Evento::SemDefensorElegivel { .. } => true,
        Evento::PasseCompleto { lado, jogador } => elegivel_em(roster_de(lado, time_a, time_b), jogador as int),
        Evento::PasseInterceptado { lado, jogador, defensor } => elegivel_em(
            roster_de(lado, time_a, time_b),
            jogador as int,
        ) && elegivel_em(roster_de(oposto(lado), time_a, time_b), defensor as int),
        Evento::PasseNaLateral { lado, jogador } => elegivel_em(roster_de(lado, time_a, time_b), jogador as int),
        Evento::DribleCompleto { lado, jogador } => elegivel_em(roster_de(lado, time_a, time_b), jogador as int),
        Evento::DribleInterceptado { lado, jogador, defensor } => elegivel_em(
            roster_de(lado, time_a, time_b),
            jogador as int,
        ) && elegivel_em(roster_de(oposto(lado), time_a, time_b), defensor as int),
        Evento::DribleFalhou { lado, jogador } => elegivel_em(roster_de(lado, time_a, time_b), jogador as int),
        Evento::ChuteNaTrave { lado, jogador } => elegivel_em(roster_de(lado, time_a, time_b), jogador as int),
        Evento::ChuteDefendidoEscanteio { lado, jogador } => elegivel_em(
            roster_de(lado, time_a, time_b),
            jogador as int,
        ),
        Evento::ChuteDefendidoSeguro { lado, jogador } => elegivel_em(
            roster_de(lado, time_a, time_b),
            jogador as int,
        ),
        Evento::Gol { lado, jogador } => elegivel_em(roster_de(lado, time_a, time_b), jogador as int),
        Evento::ChuteForaDoGol { lado, jogador } => elegivel_em(roster_de(lado, time_a, time_b), jogador as int),
        Evento::ChuteNaLateral { lado, jogador } => elegivel_em(roster_de(lado, time_a, time_b), jogador as int),
        Evento::ChuteNaLinhaDeFundo { lado, jogador } => elegivel_em(roster_de(lado, time_a, time_b), jogador as int),
        Evento::ChuteFora { lado, jogador } => elegivel_em(roster_de(lado, time_a, time_b), jogador as int),
        Evento::Falta { lado, defensor } => elegivel_em(roster_de(lado, time_a, time_b), defensor as int),
        Evento::CartaoAmarelo { lado, defensor } => elegivel_em(roster_de(lado, time_a, time_b), defensor as int),
        Evento::CartaoVermelho { lado, defensor } => elegivel_em(roster_de(lado, time_a, time_b), defensor as int),
    }
}


/// An event that respects the rosters of some later tick also respects the
/// rosters of an earlier one: roster sizes never change and a send-off is
/// never reset, so an agent eligible later was eligible before.
pub proof fn lema_respeita_monotonia(
    e: Evento,
    a0: Seq<Jogador>,
    b0: Seq<Jogador>,
    a1: Seq<Jogador>,
    b1: Seq<Jogador>,
)
    requires
        a0.len() == a1.len(),
        b0.len() == b1.len(),
        forall|i: int| 0 <= i < a0.len() ==> (#[trigger] a0[i].red_card ==> a1[i].red_card),
        forall|i: int| 0 <= i < b0.len() ==> (#[trigger] b0[i].red_card ==> b1[i].red_card),
        evento_respeita(e, a1, b1),
    ensures
        evento_respeita(e, a0, b0),
{
}


/// Every agent of the roster has been sent off: the eligible set is empty.
pub open spec fn todos_expulsos(time: Seq<Jogador>) -> bool {
    forall|i: int| 0 <= i < time.len() ==> time[i].red_card
}

/// True of the events that resolve the tick's attacking action — a pass,
/// dribble or shot outcome naming an active attacker.
pub open spec fn evento_de_acao(e: Evento) -> bool {
    match e {
        Evento::SemJogadorElegivel { .. } => false,
        Evento::SemDefensorElegivel { .. } => false,
        Evento::Falta { .. } => false,
        Evento::CartaoAmarelo { .. } => false,
        Evento::CartaoVermelho { .. } => false,
        _ => true,
    }
}

/// True of the events of the foul and card chain.
pub open spec fn evento_de_disciplina(e: Evento) -> bool {
    match e {
        Evento::Falta { .. } => true,
        Evento::CartaoAmarelo { .. } => true,
        Evento::CartaoVermelho { .. } => true,
        _ => false,
    }
}

/// True of the two absent-selection events.
pub open spec fn evento_de_ausencia(e: Evento) -> bool {
    match e {
        Evento::SemJogadorElegivel { .. } => true,
        Evento::SemDefensorElegivel { .. } => true,
        _ => false,
    }
}

/// An absent-selection event is justified: the side it names really has no
/// eligible agent left. True of every other event.
pub open spec fn ausencia_justificada(e: Evento, time_a: Seq<Jogador>, time_b: Seq<Jogador>) -> bool {
    match e {
        Evento::SemJogadorElegivel { lado } => todos_expulsos(roster_de(lado, time_a, time_b)),
        Evento::SemDefensorElegivel { lado } => todos_expulsos(roster_de(lado, time_a, time_b)),
        _ => true,
    }
}

/// An absent-selection event justified against the rosters of some tick is
/// justified against any later rosters: a send-off is never reset, so an
/// emptied side stays empty.
pub proof fn lema_ausencia_monotonia(
    e: Evento,
    a0: Seq<Jogador>,
    b0: Seq<Jogador>,
    a1: Seq<Jogador>,
    b1: Seq<Jogador>,
)
    requires
        a0.len() == a1.len(),
        b0.len() == b1.len(),
        forall|i: int| 0 <= i < a0.len() ==> (#[trigger] a0[i].red_card ==> a1[i].red_card),
        forall|i: int| 0 <= i < b0.len() ==> (#[trigger] b0[i].red_card ==> b1[i].red_card),
        ausencia_justificada(e, a0, b0),
    ensures
        ausencia_justificada(e, a1, b1),
{
    if todos_expulsos(a0) {
        assert forall|i: int| 0 <= i < a1.len() implies a1[i].red_card by {
            assert(a0[i].red_card);
        }
    }
    if todos_expulsos(b0) {
        assert forall|i: int| 0 <= i < b1.len() implies b1[i].red_card by {
            assert(b0[i].red_card);
        }
    }
}

/// Whether the event books agent `i` of the given side with this kind of
/// card. False for every statistic that is not a card.
pub open spec fn cartao_de(e: Evento, lado: Lado, i: int, m: Marcador) -> bool {
    match m {
        Marcador::CartaoAmarelo => e matches Evento::CartaoAmarelo { lado: l, defensor } && l == lado && defensor == i,
        Marcador::CartaoVermelho => e matches Evento::CartaoVermelho { lado: l, defensor } && l == lado && defensor == i,
        _ => false,
    }
}

/// How many events of the sequence book agent `i` of the given side with
/// this kind of card.
pub open spec fn contar_cartoes(eventos: Seq<Evento>, lado: Lado, i: int, m: Marcador) -> nat
    decreases eventos.len(),
{
    if eventos.len() == 0 {
        0
    } else {
        contar_cartoes(eventos.drop_last(), lado, i, m) + if cartao_de(eventos.last(), lado, i, m) {
            1nat
        } else {
            0nat
        }
    }
}

/// Appending one event raises each per-agent card count by one exactly when
/// the event books that agent.
pub proof fn lema_contar_cartoes_push(eventos: Seq<Evento>, e: Evento, lado: Lado, i: int, m: Marcador)
    ensures
        contar_cartoes(eventos.push(e), lado, i, m) == contar_cartoes(eventos, lado, i, m) + if cartao_de(e, lado, i, m) {
            1nat
        } else {
            0nat
        },
{
    assert(eventos.push(e).drop_last() =~= eventos);
    assert(eventos.push(e).last() == e);
}

/// Per-agent card counting distributes over concatenation.
pub proof fn lema_contar_cartoes_concat(a: Seq<Evento>, b: Seq<Evento>, lado: Lado, i: int, m: Marcador)
    ensures
        contar_cartoes(a + b, lado, i, m) == contar_cartoes(a, lado, i, m) + contar_cartoes(b, lado, i, m),
    decreases b.len(),
{
    if b.len() == 0 {
        assert(a + b =~= a);
    } else {
        lema_contar_cartoes_concat(a, b.drop_last(), lado, i, m);
        assert((a + b).drop_last() =~= a + b.drop_last());
        assert((a + b).last() == b.last());
    }
}

/// Per-agent card counting distributes over concatenation, for every side,
/// agent and card kind at once.
pub proof fn lema_contar_cartoes_concat_todos(a: Seq<Evento>, b: Seq<Evento>)
    ensures
        forall|lado: Lado, i: int, m: Marcador| #[trigger] contar_cartoes(a + b, lado, i, m) == contar_cartoes(a, lado, i, m) + contar_cartoes(b, lado, i, m),
{
    assert forall|lado: Lado, i: int, m: Marcador| #[trigger] contar_cartoes(a + b, lado, i, m) == contar_cartoes(a, lado, i, m) + contar_cartoes(b, lado, i, m) by {
        lema_contar_cartoes_concat(a, b, lado, i, m);
    }
}

} // verus!
