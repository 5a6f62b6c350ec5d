//! Match state and the per-tick event-resolution engine: possession and
//! agent selection, the action probability chain, goal geometry, goalkeeper
//! saves, and foul and card resolution, all against one shared random
//! source consumed in a fixed, reproducible order.

use vstd::prelude::*;

verus! {

use crate::CAMPO_ALTURA;
use crate::CAMPO_LARGURA;
use crate::GOL_Y_MAX;
use crate::GOL_Y_MIN;
use crate::campo::Alvo;
use crate::campo::Bola;
use crate::campo::Posicao;
use crate::campo::Saida;
use crate::campo::classificacao_do_alvo;
use crate::campo::classificar_alvo;
use crate::campo::classificar_saida;
use crate::checagem::efetiva;
use crate::checagem::simular_chute;
use crate::checagem::simular_drible;
use crate::checagem::simular_falta;
use crate::checagem::simular_interceptacao;
use crate::checagem::simular_passe;
use crate::evento::Evento;
use crate::evento::Lado;
use crate::evento::Marcador;
use crate::evento::contar;
use crate::evento::elegivel_em;
use crate::evento::evento_respeita;
use crate::evento::ausencia_justificada;
use crate::evento::cartao_de;
use crate::evento::contar_cartoes;
use crate::evento::evento_de_acao;
use crate::evento::evento_de_ausencia;
use crate::evento::evento_de_disciplina;
use crate::evento::lado_oposto;
use crate::evento::lema_ausencia_monotonia;
use crate::evento::lema_contar_cartoes_concat_todos;
use crate::evento::lema_contar_cartoes_push;
use crate::evento::todos_expulsos;
use crate::evento::lema_contar_concat_todos;
use crate::evento::lema_contar_push;
use crate::evento::lema_respeita_monotonia;
use crate::evento::marca;
use crate::evento::oposto;
use crate::fonte::Fonte;
use crate::jogador::Goleiro;
use crate::jogador::Jogador;
use crate::jogador::atributos_validos;
use crate::jogador::disciplina_avanca;
use crate::jogador::disciplina_coerente;
use crate::jogador::goleiro_valido;
use crate::jogador::mesmo_perfil;

/// The per-side box-score counters.
#[derive(Debug, Clone, Copy, PartialEq, Eq, Structural)]
pub struct Estatisticas {
    pub gols: u32,
    pub chutes_no_gol: u32,
    pub escanteios: u32,
    pub impedimentos: u32,
    pub faltas: u32,
    pub cartoes_amarelos: u32,
    pub cartoes_vermelhos: u32,
}

/// The counter of this statistic.
pub open spec fn valor_marcador(e: Estatisticas, m: Marcador) -> u32 {
    match m {
        Marcador::Gol => e.gols,
        Marcador::ChuteNoGol => e.chutes_no_gol,
        Marcador::Escanteio => e.escanteios,
        Marcador::Falta => e.faltas,
        Marcador::CartaoAmarelo => e.cartoes_amarelos,
        Marcador::CartaoVermelho => e.cartoes_vermelhos,
    }
}

/// The counters with this statistic raised by one.
pub open spec fn com_incremento(e: Estatisticas, m: Marcador) -> Estatisticas {
    match m {
        Marcador::Gol => Estatisticas { gols: (e.gols + 1) as u32, ..e },
        Marcador::ChuteNoGol => Estatisticas { chutes_no_gol: (e.chutes_no_gol + 1) as u32, ..e },
        Marcador::Escanteio => Estatisticas { escanteios: (e.escanteios + 1) as u32, ..e },
        Marcador::Falta => Estatisticas { faltas: (e.faltas + 1) as u32, ..e },
        Marcador::CartaoAmarelo => Estatisticas {
            cartoes_amarelos: (e.cartoes_amarelos + 1) as u32,
            ..e
        },
        Marcador::CartaoVermelho => Estatisticas {
            cartoes_vermelhos: (e.cartoes_vermelhos + 1) as u32,
            ..e
        },
    }
}

impl Estatisticas {
    /// Every counter is at most `limite`. Each tick raises each counter by
    /// at most one, so the counters stay bounded by the tick index.
    pub open spec fn dentro_do_limite(self, limite: int) -> bool {
        &&& self.gols <= limite
        &&& self.chutes_no_gol <= limite
        &&& self.escanteios <= limite
        &&& self.impedimentos <= limite
        &&& self.faltas <= limite
        &&& self.cartoes_amarelos <= limite
        &&& self.cartoes_vermelhos <= limite
    }

    /// No counter of the box score ever decreases.
    pub open spec fn nunca_diminui(antes: Estatisticas, depois: Estatisticas) -> bool {
        &&& depois.gols >= antes.gols
        &&& depois.chutes_no_gol >= antes.chutes_no_gol
        &&& depois.escanteios >= antes.escanteios
        &&& depois.impedimentos >= antes.impedimentos
        &&& depois.faltas >= antes.faltas
        &&& depois.cartoes_amarelos >= antes.cartoes_amarelos
        &&& depois.cartoes_vermelhos >= antes.cartoes_vermelhos
    }

    /// All counters at zero, for the start of a match.
    pub open spec fn zerada(self) -> bool {
        &&& self.gols == 0
        &&& self.chutes_no_gol == 0
        &&& self.escanteios == 0
        &&& self.impedimentos == 0
        &&& self.faltas == 0
        &&& self.cartoes_amarelos == 0
        &&& self.cartoes_vermelhos == 0
    }

    /// Fresh counters, all at zero.
    pub fn novas() -> (e: Estatisticas)
        ensures
            e.zerada(),
    {
        Estatisticas {
            gols: 0,
            chutes_no_gol: 0,
            escanteios: 0,
            impedimentos: 0,
            faltas: 0,
            cartoes_amarelos: 0,
            cartoes_vermelhos: 0,
        }
    }
}

/// One side's counters after a stretch of play, against its counters before
/// and the events emitted meanwhile: goals, shots on goal, corners, fouls
/// and cards each grew by exactly the number of emitted events that feed
/// them, and offsides were untouched.
pub open spec fn estat_avancou(
    antes: Estatisticas,
    depois: Estatisticas,
    eventos: Seq<Evento>,
    lado: Lado,
) -> bool {
    &&& depois.gols == antes.gols + contar(eventos, lado, Marcador::Gol)
    &&& depois.chutes_no_gol == antes.chutes_no_gol + contar(eventos, lado, Marcador::ChuteNoGol)
    &&& depois.escanteios == antes.escanteios + contar(eventos, lado, Marcador::Escanteio)
    &&& depois.faltas == antes.faltas + contar(eventos, lado, Marcador::Falta)
    &&& depois.cartoes_amarelos == antes.cartoes_amarelos + contar(
        eventos,
        lado,
        Marcador::CartaoAmarelo,
    )
    &&& depois.cartoes_vermelhos == antes.cartoes_vermelhos + contar(
        eventos,
        lado,
        Marcador::CartaoVermelho,
    )
    &&& depois.impedimentos == antes.impedimentos
}

/// Each agent's personal disciplinary record after a stretch of play,
/// against the record before and the events emitted meanwhile: the yellow
/// counter grew by exactly the yellow-card events booking that agent, and
/// the send-off flag is set exactly by a red-card event booking it (or
/// stays from before). Spec section: only the foul-resolution step, which
/// emits those events, ever mutates these fields.
pub open spec fn disciplina_avancou(
    antes: Seq<Jogador>,
    depois: Seq<Jogador>,
    eventos: Seq<Evento>,
    lado: Lado,
) -> bool {
    &&& depois.len() == antes.len()
    &&& forall|i: int| 0 <= i < antes.len() ==> (#[trigger] depois[i]).yellow_cards == antes[i].yellow_cards + contar_cartoes(eventos, lado, i, Marcador::CartaoAmarelo)
    &&& forall|i: int| 0 <= i < antes.len() ==> ((#[trigger] depois[i]).red_card <==> (antes[i].red_card || contar_cartoes(eventos, lado, i, Marcador::CartaoVermelho) >= 1))
}

/// Where the resolution of one tick may leave the ball: where it was, on a
/// touchline after a failed pass, on the goal line inside the on-target
/// band of a successful shot, or at the drawn deflection of a missed shot.
pub open spec fn reposicao_de_jogada(antes: Posicao, depois: Posicao) -> bool {
    ||| depois == antes
    ||| ((depois.x == 0 || depois.x == CAMPO_LARGURA - 1) && 0 <= depois.y < CAMPO_ALTURA)
    ||| (depois.x == 0 && GOL_Y_MIN - 2 <= depois.y < GOL_Y_MAX + 3)
    ||| (-5 <= depois.x < CAMPO_LARGURA + 5 && -5 <= depois.y < CAMPO_ALTURA + 5)
}

/// Which branches of the resolution chain are active. The richest engine
/// has all three; the simpler variants collapse the dribble action, the
/// goal geometry, or the goalkeeper.
#[derive(Debug, Clone, Copy, PartialEq, Eq, Structural)]
pub struct Config {
    pub habilitar_drible: bool,
    pub habilitar_geometria: bool,
    pub habilitar_goleiro: bool,
}

impl Config {
    /// The full, geometry-aware engine.
    pub fn completa() -> (c: Config)
        ensures
            c.habilitar_drible,
            c.habilitar_geometria,
            c.habilitar_goleiro,
    {
        Config { habilitar_drible: true, habilitar_geometria: true, habilitar_goleiro: true }
    }
}

/// Every player of the roster has valid ratings and a disciplinary record
/// whose flag agrees with its counter.
pub open spec fn elenco_bem_formado(time: Seq<Jogador>) -> bool {
    forall|i: int|
        0 <= i < time.len() ==> atributos_validos(#[trigger] time[i]) && disciplina_coerente(
            time[i],
        )
}

/// The whole mutable match state: both rosters and goalkeepers, the ball,
/// the per-side counters, and the current tick index.
#[derive(Debug, Clone)]
pub struct Estado {
    pub time_a: Vec<Jogador>,
    pub time_b: Vec<Jogador>,
    pub goleiro_a: Goleiro,
    pub goleiro_b: Goleiro,
    pub bola: Bola,
    pub estat_a: Estatisticas,
    pub estat_b: Estatisticas,
    pub minuto: u32,
}

impl Estado {
    /// The roster of the given side.
    pub open spec fn time_de(self, lado: Lado) -> Seq<Jogador> {
        match lado {
            Lado::A => self.time_a@,
            Lado::B => self.time_b@,
        }
    }

    /// The counters of the given side.
    pub open spec fn estat_de(self, lado: Lado) -> Estatisticas {
        match lado {
            Lado::A => self.estat_a,
            Lado::B => self.estat_b,
        }
    }

    /// The goalkeeper of the given side.
    pub open spec fn goleiro_de(self, lado: Lado) -> Goleiro {
        match lado {
            Lado::A => self.goleiro_a,
            Lado::B => self.goleiro_b,
        }
    }

    /// The state invariant: rosters and keepers are valid, and every counter
    /// is bounded by the tick index, since one tick feeds each counter at
    /// most once. The roster bound is a machine limit of the index draw.
    pub open spec fn bem_formado(self) -> bool {
        &&& elenco_bem_formado(self.time_a@)
        &&& elenco_bem_formado(self.time_b@)
        &&& self.time_a@.len() < 0x8000_0000
        &&& self.time_b@.len() < 0x8000_0000
        &&& goleiro_valido(self.goleiro_a)
        &&& goleiro_valido(self.goleiro_b)
        &&& self.estat_a.dentro_do_limite(self.minuto as int)
        &&& self.estat_b.dentro_do_limite(self.minuto as int)
    }

    /// Builds the state for the start of a match: counters zeroed, ball at
    /// the center, tick index zero. Rosters or keepers whose ratings are out
    /// of range, or whose disciplinary record contradicts itself, are
    /// rejected — attribute range discipline is checked here, at the
    /// boundary, and nowhere inside the engine.
    pub fn novo(
        time_a: Vec<Jogador>,
        goleiro_a: Goleiro,
        time_b: Vec<Jogador>,
        goleiro_b: Goleiro,
    ) -> (r: Option<Estado>)
        ensures
            r is Some <==> {
                &&& elenco_bem_formado(time_a@)
                &&& elenco_bem_formado(time_b@)
                &&& time_a@.len() < 0x8000_0000
                &&& time_b@.len() < 0x8000_0000
                &&& goleiro_valido(goleiro_a)
                &&& goleiro_valido(goleiro_b)
            },
            r matches Some(e) ==> {
                &&& e.bem_formado()
                &&& e.time_a@ == time_a@
                &&& e.time_b@ == time_b@
                &&& e.goleiro_a == goleiro_a
                &&& e.goleiro_b == goleiro_b
                &&& e.estat_a.zerada()
                &&& e.estat_b.zerada()
                &&& e.minuto == 0
                &&& e.bola.posicao.x == CAMPO_LARGURA / 2
                &&& e.bola.posicao.y == CAMPO_ALTURA / 2
            },
    {
        let ok_a = elenco_valido(&time_a);
        let ok_b = elenco_valido(&time_b);
        if ok_a && ok_b && goleiro_a.valido() && goleiro_b.valido() {
            Some(
                Estado {
                    time_a,
                    time_b,
                    goleiro_a,
                    goleiro_b,
                    bola: Bola::new(),
                    estat_a: Estatisticas::novas(),
                    estat_b: Estatisticas::novas(),
                    minuto: 0,
                },
            )
        } else {
            None
        }
    }
}

/// Checks one roster for the state invariant: ratings in range, coherent
/// disciplinary record, and the machine bound on its size.
fn elenco_valido(time: &Vec<Jogador>) -> (r: bool)
    ensures
        r == (elenco_bem_formado(time@) && time@.len() < 0x8000_0000),
{
    if time.len() >= 0x8000_0000 {
        return false;
    }
    let mut k: usize = 0;
    while k < time.len()
        invariant
            k <= time@.len(),
            forall|i: int|
                0 <= i < k ==> atributos_validos(#[trigger] time@[i]) && disciplina_coerente(
                    time@[i],
                ),
        decreases time@.len() - k,
    {
        let j = time[k];
        if !(j.valido() && (j.red_card == (j.yellow_cards >= 2))) {
            return false;
        }
        k = k + 1;
    }
    true
}

/// Draws one agent uniformly from the eligible (not sent off) part of the
/// roster. Returns `None` exactly when every agent of the roster has been
/// sent off — an empty eligible set is an explicit absent selection, never
/// an abort. When exactly one agent is eligible, the result can only be
/// that agent.
pub fn selecionar_elegivel(time: &Vec<Jogador>, fonte: &mut Fonte) -> (r: Option<usize>)
    requires
        time@.len() < 0x8000_0000,
    ensures
        r is None <==> (forall|i: int| 0 <= i < time@.len() ==> time@[i].red_card),
        r matches Some(i) ==> elegivel_em(time@, i as int),
        forall|i0: int| #[trigger] elegivel_em(time@, i0) && (forall|j: int| 0 <= j < time@.len() && j != i0 ==> time@[j].red_card) ==> r == Some(i0 as usize),
{
    let mut indices: Vec<usize> = Vec::new();
    let mut k: usize = 0;
    while k < time.len()
        invariant
            k <= time@.len(),
            indices@.len() <= k,
            forall|m: int| 0 <= m < indices@.len() ==> elegivel_em(time@, indices@[m] as int),
            (indices@.len() == 0) <==> (forall|j: int| 0 <= j < k ==> time@[j].red_card),
        decreases time@.len() - k,
    {
        if !time[k].red_card {
            indices.push(k);
        }
        k = k + 1;
    }
    if indices.len() == 0 {
        None
    } else {
        let s = fonte.sortear(0, indices.len() as i64);
        Some(indices[s as usize])
    }
}

/// Generates one squad: ten outfield players with ratings drawn inside the
/// documented ranges (pass 60–90, dribble 50–80, shot 60–85, defense 50–84,
/// foul tendency 5–15, luck −5–5) and a goalkeeper (save 70–90), with fresh
/// disciplinary records. Player ids count from 1; the keeper has id 0.
pub fn criar_time(fonte: &mut Fonte) -> (r: (Vec<Jogador>, Goleiro))
    ensures
        r.0@.len() == 10,
        elenco_bem_formado(r.0@),
        forall|i: int|
            0 <= i < 10 ==> {
                let j = #[trigger] r.0@[i];
                &&& j.id == i + 1
                &&& 60 <= j.pass_accuracy <= 90
                &&& 50 <= j.dribble_skill <= 80
                &&& 60 <= j.shot_accuracy <= 85
                &&& 50 <= j.defense_skill <= 84
                &&& 5 <= j.foul_tendency <= 15
                &&& -5 <= j.luck <= 5
                &&& j.yellow_cards == 0
                &&& !j.red_card
            },
        goleiro_valido(r.1),
        r.1.id == 0,
        70 <= r.1.save_skill <= 90,
{
    let mut time: Vec<Jogador> = Vec::new();
    let mut i: u32 = 0;
    while i < 10
        invariant
            i <= 10,
            time@.len() == i,
            forall|k: int|
                0 <= k < i ==> {
                    let j = #[trigger] time@[k];
                    &&& j.id == k + 1
                    &&& 60 <= j.pass_accuracy <= 90
                    &&& 50 <= j.dribble_skill <= 80
                    &&& 60 <= j.shot_accuracy <= 85
                    &&& 50 <= j.defense_skill <= 84
                    &&& 5 <= j.foul_tendency <= 15
                    &&& -5 <= j.luck <= 5
                    &&& j.yellow_cards == 0
                    &&& !j.red_card
                },
        decreases 10 - i,
    {
        let pass_accuracy = fonte.sortear(60, 91) as u8;
        let dribble_skill = fonte.sortear(50, 81) as u8;
        let shot_accuracy = fonte.sortear(60, 86) as u8;
        let defense_skill = fonte.sortear(50, 85) as u8;
        let foul_tendency = fonte.sortear(5, 16) as u8;
        let luck = fonte.sortear(-5, 6) as i8;
        let j = Jogador::new(
            i + 1,
            pass_accuracy,
            dribble_skill,
            shot_accuracy,
            defense_skill,
            foul_tendency,
            luck,
            fonte,
        );
        time.push(j);
        i = i + 1;
    }
    let save_skill = fonte.sortear(70, 91) as u8;
    let luck_goleiro = fonte.sortear(-5, 6) as i8;
    let goleiro = Goleiro::new(0, save_skill, luck_goleiro);
    (time, goleiro)
}


/// Appends one event, carrying along how the appended event moves every
/// count.
fn registrar_evento(eventos: &mut Vec<Evento>, e: Evento)
    ensures
        final(eventos)@ == old(eventos)@.push(e),
        forall|l: Lado, m: Marcador|
            #[trigger] contar(final(eventos)@, l, m) == contar(old(eventos)@, l, m) + (
            if marca(e, l, m) {
                1nat
            } else {
                0nat
            }),
        forall|l: Lado, i: int, m: Marcador|
            #[trigger] contar_cartoes(final(eventos)@, l, i, m) == contar_cartoes(old(eventos)@, l, i, m) + (
            if cartao_de(e, l, i, m) {
                1nat
            } else {
                0nat
            }),
{
    eventos.push(e);
    proof {
        assert forall|l: Lado, m: Marcador|
            #[trigger] contar(eventos@, l, m) == contar(old(eventos)@, l, m) + (if marca(
                e,
                l,
                m,
            ) {
                1nat
            } else {
                0nat
            }) by {
            lema_contar_push(old(eventos)@, e, l, m);
        }
        assert forall|l: Lado, i: int, m: Marcador|
            #[trigger] contar_cartoes(eventos@, l, i, m) == contar_cartoes(old(eventos)@, l, i, m)
                + (if cartao_de(e, l, i, m) {
                1nat
            } else {
                0nat
            }) by {
            lema_contar_cartoes_push(old(eventos)@, e, l, i, m);
        }
    }
}

/// Raises one counter by one, leaving the others as they were.
fn incrementar(estat: &mut Estatisticas, m: Marcador)
    requires
        valor_marcador(*old(estat), m) < u32::MAX,
    ensures
        *final(estat) == com_incremento(*old(estat), m),
{
    match m {
        Marcador::Gol => estat.gols = estat.gols + 1,
        Marcador::ChuteNoGol => estat.chutes_no_gol = estat.chutes_no_gol + 1,
        Marcador::Escanteio => estat.escanteios = estat.escanteios + 1,
        Marcador::Falta => estat.faltas = estat.faltas + 1,
        Marcador::CartaoAmarelo => estat.cartoes_amarelos = estat.cartoes_amarelos + 1,
        Marcador::CartaoVermelho => estat.cartoes_vermelhos = estat.cartoes_vermelhos + 1,
    }
}

/// Raises one counter of the given side, leaving every other part of the
/// state as it was.
fn anotar(estado: &mut Estado, lado: Lado, m: Marcador)
    requires
        valor_marcador(old(estado).estat_de(lado), m) < u32::MAX,
    ensures
        final(estado).estat_de(lado) == com_incremento(old(estado).estat_de(lado), m),
        final(estado).estat_de(oposto(lado)) == old(estado).estat_de(oposto(lado)),
        final(estado).time_a@ == old(estado).time_a@,
        final(estado).time_b@ == old(estado).time_b@,
        final(estado).goleiro_a == old(estado).goleiro_a,
        final(estado).goleiro_b == old(estado).goleiro_b,
        final(estado).bola == old(estado).bola,
        final(estado).minuto == old(estado).minuto,
{
    match lado {
        Lado::A => incrementar(&mut estado.estat_a, m),
        Lado::B => incrementar(&mut estado.estat_b, m),
    }
}

/// How one on-target shot ends once its height on the goal line is fixed.
#[derive(Debug, Clone, Copy, PartialEq, Eq, Structural)]
pub enum DesfechoChute {
    NaTrave,
    DefesaEscanteio,
    DefesaSegura,
    Gol,
    ForaDoGol,
}

/// The outcome of one on-target shot once the geometry, the save result
/// and the corner coin are fixed, in the spec's order: a post ends the
/// action at once; otherwise a save deflects to a corner or is held; only
/// then does the goal mouth decide goal or no goal.
pub fn decidir_desfecho(alvo: Alvo, defendeu: bool, escanteio: bool) -> (d: DesfechoChute)
    ensures
        alvo == Alvo::Trave ==> d == DesfechoChute::NaTrave,
        (alvo != Alvo::Trave && defendeu && escanteio) ==> d == DesfechoChute::DefesaEscanteio,
        (alvo != Alvo::Trave && defendeu && !escanteio) ==> d == DesfechoChute::DefesaSegura,
        (alvo == Alvo::DentroDoGol && !defendeu) ==> d == DesfechoChute::Gol,
        (alvo == Alvo::ForaDoGol && !defendeu) ==> d == DesfechoChute::ForaDoGol,
{
    match alvo {
        Alvo::Trave => DesfechoChute::NaTrave,
        Alvo::DentroDoGol => {
            if defendeu {
                if escanteio {
                    DesfechoChute::DefesaEscanteio
                } else {
                    DesfechoChute::DefesaSegura
                }
            } else {
                DesfechoChute::Gol
            }
        },
        Alvo::ForaDoGol => {
            if defendeu {
                if escanteio {
                    DesfechoChute::DefesaEscanteio
                } else {
                    DesfechoChute::DefesaSegura
                }
            } else {
                DesfechoChute::ForaDoGol
            }
        },
    }
}

/// Resolves one on-target shot against the goal geometry and the keeper, in
/// the fixed order post, save, goal mouth. A shot on a post ends there: no
/// save attempt and no goal, whatever the keeper would have done. A goal is
/// only ever awarded inside the goal mouth; a shot that beats the keeper
/// outside it is explicitly no goal. Without a keeper the geometry alone
/// decides; at the extremes of the keeper's save chance the save is fixed
/// too, and with it the outcome.
pub fn resolver_chute_no_alvo(
    y_alvo: i32,
    goleiro: &Goleiro,
    usar_goleiro: bool,
    fonte: &mut Fonte,
) -> (d: DesfechoChute)
    requires
        goleiro_valido(*goleiro),
    ensures
        (d == DesfechoChute::NaTrave) <==> (classificacao_do_alvo(y_alvo as int) == Alvo::Trave),
        (d == DesfechoChute::Gol) ==> (classificacao_do_alvo(y_alvo as int) == Alvo::DentroDoGol),
        (d == DesfechoChute::ForaDoGol) ==> (classificacao_do_alvo(y_alvo as int) == Alvo::ForaDoGol),
        (d == DesfechoChute::DefesaEscanteio || d == DesfechoChute::DefesaSegura) ==> usar_goleiro,
        (!usar_goleiro && classificacao_do_alvo(y_alvo as int) == Alvo::DentroDoGol) ==> (d == DesfechoChute::Gol),
        (!usar_goleiro && classificacao_do_alvo(y_alvo as int) == Alvo::ForaDoGol) ==> (d == DesfechoChute::ForaDoGol),
        (usar_goleiro && efetiva(goleiro.save_skill as int, goleiro.luck as int) == 0 && classificacao_do_alvo(y_alvo as int) == Alvo::DentroDoGol) ==> (d == DesfechoChute::Gol),
        (usar_goleiro && efetiva(goleiro.save_skill as int, goleiro.luck as int) == 0 && classificacao_do_alvo(y_alvo as int) == Alvo::ForaDoGol) ==> (d == DesfechoChute::ForaDoGol),
        (usar_goleiro && efetiva(goleiro.save_skill as int, goleiro.luck as int) == 100 && classificacao_do_alvo(y_alvo as int) != Alvo::Trave) ==> (d == DesfechoChute::DefesaEscanteio || d == DesfechoChute::DefesaSegura),
{
    let alvo = classificar_alvo(y_alvo);
    match alvo {
        Alvo::Trave => decidir_desfecho(alvo, false, false),
        _ => {
            let defendeu: bool = usar_goleiro && goleiro.tentar_defender(fonte);
            let escanteio: bool = if defendeu {
                fonte.sortear(0, 2) == 0
            } else {
                false
            };
            decidir_desfecho(alvo, defendeu, escanteio)
        },
    }
}

/// Resolves the chosen attacking action of one tick: a uniform choice among
/// pass, dribble and shot (pass and shot only when the dribble branch is
/// off), then the action's own probability chain. Touches no player and no
/// keeper; raises only the possessing side's shot, corner and goal
/// counters, each by exactly the number of emitted events that feed it.
#[verifier::rlimit(30)]
fn resolver_acao(
    estado: &mut Estado,
    lado: Lado,
    atacante: usize,
    defensor: Option<usize>,
    config: &Config,
    fonte: &mut Fonte,
) -> (eventos: Vec<Evento>)
    requires
        elenco_bem_formado(old(estado).time_de(lado)),
        elenco_bem_formado(old(estado).time_de(oposto(lado))),
        goleiro_valido(old(estado).goleiro_de(oposto(lado))),
        elegivel_em(old(estado).time_de(lado), atacante as int),
        defensor matches Some(d) ==> elegivel_em(old(estado).time_de(oposto(lado)), d as int),
        old(estado).estat_de(lado).dentro_do_limite(old(estado).minuto as int - 1),
        old(estado).minuto >= 1,
    ensures
        final(estado).time_a@ == old(estado).time_a@,
        final(estado).time_b@ == old(estado).time_b@,
        final(estado).goleiro_a == old(estado).goleiro_a,
        final(estado).goleiro_b == old(estado).goleiro_b,
        final(estado).minuto == old(estado).minuto,
        estat_avancou(old(estado).estat_a, final(estado).estat_a, eventos@, Lado::A),
        estat_avancou(old(estado).estat_b, final(estado).estat_b, eventos@, Lado::B),
        final(estado).estat_de(lado).dentro_do_limite(old(estado).minuto as int),
        final(estado).estat_de(oposto(lado)) == old(estado).estat_de(oposto(lado)),
        disciplina_avancou(old(estado).time_a@, final(estado).time_a@, eventos@, Lado::A),
        disciplina_avancou(old(estado).time_b@, final(estado).time_b@, eventos@, Lado::B),
        reposicao_de_jogada(old(estado).bola.posicao, final(estado).bola.posicao),
        eventos@.len() == 1,
        evento_de_acao(eventos@[0]),
        forall|k: int| 0 <= k < eventos@.len() ==> evento_respeita(#[trigger] eventos@[k], old(estado).time_a@, old(estado).time_b@),
{
    let j: Jogador = match lado {
        Lado::A => estado.time_a[atacante],
        Lado::B => estado.time_b[atacante],
    };
    let goleiro: Goleiro = match lado {
        Lado::A => estado.goleiro_b,
        Lado::B => estado.goleiro_a,
    };
    let mut eventos: Vec<Evento> = Vec::new();
    let acao: i64 = if config.habilitar_drible {
        fonte.sortear(0, 3)
    } else {
        fonte.sortear(0, 2)
    };
    let escolha: i64 = if config.habilitar_drible {
        acao
    } else if acao == 1 {
        2
    } else {
        0
    };
    if escolha == 0 {
        // pass: on success the defender may intercept; on failure the ball
        // goes out over a touchline
        if simular_passe(&j, fonte) {
            match defensor {
                Some(d) => {
                    let dj: Jogador = match lado {
                        Lado::A => estado.time_b[d],
                        Lado::B => estado.time_a[d],
                    };
                    if simular_interceptacao(&dj, fonte) {
                        registrar_evento(
                            &mut eventos,
                            Evento::PasseInterceptado { lado, jogador: atacante, defensor: d },
                        );
                    } else {
                        registrar_evento(
                            &mut eventos,
                            Evento::PasseCompleto { lado, jogador: atacante },
                        );
                    }
                },
                None => {
                    registrar_evento(
                        &mut eventos,
                        Evento::PasseCompleto { lado, jogador: atacante },
                    );
                },
            }
        } else {
            let sorteio_lado: i64 = fonte.sortear(0, 2);
            let x: i32 = if sorteio_lado == 0 {
                0
            } else {
                CAMPO_LARGURA - 1
            };
            let y: i32 = fonte.sortear(0, CAMPO_ALTURA as i64) as i32;
            estado.bola.mover(Posicao { x, y });
            registrar_evento(&mut eventos, Evento::PasseNaLateral { lado, jogador: atacante });
        }
    } else if escolha == 1 {
        // dribble: on success the defender may intercept; its own failure
        // loses possession with no separate interception roll
        if simular_drible(&j, fonte) {
            match defensor {
                Some(d) => {
                    let dj: Jogador = match lado {
                        Lado::A => estado.time_b[d],
                        Lado::B => estado.time_a[d],
                    };
                    if simular_interceptacao(&dj, fonte) {
                        registrar_evento(
                            &mut eventos,
                            Evento::DribleInterceptado { lado, jogador: atacante, defensor: d },
                        );
                    } else {
                        registrar_evento(
                            &mut eventos,
                            Evento::DribleCompleto { lado, jogador: atacante },
                        );
                    }
                },
                None => {
                    registrar_evento(
                        &mut eventos,
                        Evento::DribleCompleto { lado, jogador: atacante },
                    );
                },
            }
        } else {
            registrar_evento(&mut eventos, Evento::DribleFalhou { lado, jogador: atacante });
        }
    } else {
        // shot: the check decides on target or not; geometry and keeper then
        // decide how an on-target shot ends
        if simular_chute(&j, fonte) {
            anotar(estado, lado, Marcador::ChuteNoGol);
            if config.habilitar_geometria {
                let y_alvo: i32 = fonte.sortear((GOL_Y_MIN - 2) as i64, (GOL_Y_MAX + 3) as i64)
                    as i32;
                estado.bola.mover(Posicao { x: 0, y: y_alvo });
                let d = resolver_chute_no_alvo(
                    y_alvo,
                    &goleiro,
                    config.habilitar_goleiro,
                    fonte,
                );
                match d {
                    DesfechoChute::NaTrave => {
                        registrar_evento(
                            &mut eventos,
                            Evento::ChuteNaTrave { lado, jogador: atacante },
                        );
                    },
                    DesfechoChute::DefesaEscanteio => {
                        anotar(estado, lado, Marcador::Escanteio);
                        registrar_evento(
                            &mut eventos,
                            Evento::ChuteDefendidoEscanteio { lado, jogador: atacante },
                        );
                    },
                    DesfechoChute::DefesaSegura => {
                        registrar_evento(
                            &mut eventos,
                            Evento::ChuteDefendidoSeguro { lado, jogador: atacante },
                        );
                    },
                    DesfechoChute::Gol => {
                        anotar(estado, lado, Marcador::Gol);
                        registrar_evento(&mut eventos, Evento::Gol { lado, jogador: atacante });
                    },
                    DesfechoChute::ForaDoGol => {
                        registrar_evento(
                            &mut eventos,
                            Evento::ChuteForaDoGol { lado, jogador: atacante },
                        );
                    },
                }
            } else {
                // collapsed geometry: the keeper alone stands between the
                // shot and the goal
                let defendeu: bool = config.habilitar_goleiro && goleiro.tentar_defender(fonte);
                if defendeu {
                    if fonte.sortear(0, 2) == 0 {
                        anotar(estado, lado, Marcador::Escanteio);
                        registrar_evento(
                            &mut eventos,
                            Evento::ChuteDefendidoEscanteio { lado, jogador: atacante },
                        );
                    } else {
                        registrar_evento(
                            &mut eventos,
                            Evento::ChuteDefendidoSeguro { lado, jogador: atacante },
                        );
                    }
                } else {
                    anotar(estado, lado, Marcador::Gol);
                    registrar_evento(&mut eventos, Evento::Gol { lado, jogador: atacante });
                }
            }
        } else {
            if config.habilitar_geometria {
                let x_fora: i32 = fonte.sortear(-5, (CAMPO_LARGURA + 5) as i64) as i32;
                let y_fora: i32 = fonte.sortear(-5, (CAMPO_ALTURA + 5) as i64) as i32;
                estado.bola.mover(Posicao { x: x_fora, y: y_fora });
                match classificar_saida(estado.bola.posicao) {
                    Some(Saida::Lateral) => {
                        registrar_evento(
                            &mut eventos,
                            Evento::ChuteNaLateral { lado, jogador: atacante },
                        );
                    },
                    Some(Saida::Escanteio) => {
                        registrar_evento(
                            &mut eventos,
                            Evento::ChuteNaLinhaDeFundo { lado, jogador: atacante },
                        );
                    },
                    None => {
                        registrar_evento(
                            &mut eventos,
                            Evento::ChuteFora { lado, jogador: atacante },
                        );
                    },
                }
            } else {
                registrar_evento(&mut eventos, Evento::ChuteFora { lado, jogador: atacante });
            }
        }
    }
    eventos
}


/// Resolves the foul chain against the chosen defending agent: a foul check
/// on the agent's foul tendency, then a fixed 20% yellow-card draw, then —
/// exactly when the second card turns the record red — the red card. Only
/// the defending side's foul and card counters and the booked agent's
/// disciplinary record change, the record only forward.
#[verifier::rlimit(30)]
fn resolver_disciplina(
    estado: &mut Estado,
    lado_defesa: Lado,
    defensor: usize,
    fonte: &mut Fonte,
) -> (eventos: Vec<Evento>)
    requires
        elenco_bem_formado(old(estado).time_de(lado_defesa)),
        elegivel_em(old(estado).time_de(lado_defesa), defensor as int),
        old(estado).estat_de(lado_defesa).dentro_do_limite(old(estado).minuto as int - 1),
        old(estado).minuto >= 1,
    ensures
        final(estado).time_de(oposto(lado_defesa)) == old(estado).time_de(oposto(lado_defesa)),
        final(estado).time_de(lado_defesa).len() == old(estado).time_de(lado_defesa).len(),
        forall|i: int| 0 <= i < old(estado).time_de(lado_defesa).len() ==> mesmo_perfil(old(estado).time_de(lado_defesa)[i], #[trigger] final(estado).time_de(lado_defesa)[i]),
        forall|i: int| 0 <= i < old(estado).time_de(lado_defesa).len() ==> disciplina_avanca(old(estado).time_de(lado_defesa)[i], #[trigger] final(estado).time_de(lado_defesa)[i]),
        elenco_bem_formado(final(estado).time_de(lado_defesa)),
        final(estado).goleiro_a == old(estado).goleiro_a,
        final(estado).goleiro_b == old(estado).goleiro_b,
        final(estado).bola == old(estado).bola,
        final(estado).minuto == old(estado).minuto,
        estat_avancou(old(estado).estat_a, final(estado).estat_a, eventos@, Lado::A),
        estat_avancou(old(estado).estat_b, final(estado).estat_b, eventos@, Lado::B),
        final(estado).estat_de(lado_defesa).dentro_do_limite(old(estado).minuto as int),
        final(estado).estat_de(oposto(lado_defesa)) == old(estado).estat_de(oposto(lado_defesa)),
        disciplina_avancou(old(estado).time_a@, final(estado).time_a@, eventos@, Lado::A),
        disciplina_avancou(old(estado).time_b@, final(estado).time_b@, eventos@, Lado::B),
        forall|k: int| 0 <= k < eventos@.len() ==> evento_de_disciplina(#[trigger] eventos@[k]),
        forall|k: int| 0 <= k < eventos@.len() ==> evento_respeita(#[trigger] eventos@[k], old(estado).time_a@, old(estado).time_b@),
{
    let mut eventos: Vec<Evento> = Vec::new();
    let dj: Jogador = match lado_defesa {
        Lado::A => estado.time_a[defensor],
        Lado::B => estado.time_b[defensor],
    };
    if simular_falta(&dj, fonte) {
        anotar(estado, lado_defesa, Marcador::Falta);
        registrar_evento(&mut eventos, Evento::Falta { lado: lado_defesa, defensor });
        if fonte.sortear(0, 100) < 20 {
            anotar(estado, lado_defesa, Marcador::CartaoAmarelo);
            registrar_evento(&mut eventos, Evento::CartaoAmarelo { lado: lado_defesa, defensor });
            let expulso: bool = match lado_defesa {
                Lado::A => estado.time_a[defensor].aplicar_cartao_amarelo(),
                Lado::B => estado.time_b[defensor].aplicar_cartao_amarelo(),
            };
            if expulso {
                anotar(estado, lado_defesa, Marcador::CartaoVermelho);
                registrar_evento(
                    &mut eventos,
                    Evento::CartaoVermelho { lado: lado_defesa, defensor },
                );
            }
        }
    }
    eventos
}


/// Resolves one tick of the match: advances the tick index, draws the
/// possessing side (55% the home side A), selects one eligible agent per
/// side, resolves the attacking action and then the foul chain, and returns
/// the ordered events of the tick. Draws are consumed in exactly that
/// order, so a seeded source reproduces the tick. An empty eligible set on
/// the possessing side resolves to a no-action tick; one on the defending
/// side to an uncontested action with no foul chain. Sent-off agents are
/// never selected; each side's counters advance by exactly the events
/// emitted for it, and every disciplinary record only moves forward.
#[verifier::rlimit(30)]
pub fn resolver_tick(estado: &mut Estado, config: &Config, fonte: &mut Fonte) -> (eventos: Vec<
    Evento,
>)
    requires
        old(estado).bem_formado(),
        old(estado).minuto < u32::MAX,
    ensures
        final(estado).bem_formado(),
        final(estado).minuto == old(estado).minuto + 1,
        final(estado).time_a@.len() == old(estado).time_a@.len(),
        final(estado).time_b@.len() == old(estado).time_b@.len(),
        forall|i: int| 0 <= i < old(estado).time_a@.len() ==> mesmo_perfil(old(estado).time_a@[i], #[trigger] final(estado).time_a@[i]),
        forall|i: int| 0 <= i < old(estado).time_b@.len() ==> mesmo_perfil(old(estado).time_b@[i], #[trigger] final(estado).time_b@[i]),
        forall|i: int| 0 <= i < old(estado).time_a@.len() ==> disciplina_avanca(old(estado).time_a@[i], #[trigger] final(estado).time_a@[i]),
        forall|i: int| 0 <= i < old(estado).time_b@.len() ==> disciplina_avanca(old(estado).time_b@[i], #[trigger] final(estado).time_b@[i]),
        final(estado).goleiro_a == old(estado).goleiro_a,
        final(estado).goleiro_b == old(estado).goleiro_b,
        estat_avancou(old(estado).estat_a, final(estado).estat_a, eventos@, Lado::A),
        estat_avancou(old(estado).estat_b, final(estado).estat_b, eventos@, Lado::B),
        Estatisticas::nunca_diminui(old(estado).estat_a, final(estado).estat_a),
        Estatisticas::nunca_diminui(old(estado).estat_b, final(estado).estat_b),
        disciplina_avancou(old(estado).time_a@, final(estado).time_a@, eventos@, Lado::A),
        disciplina_avancou(old(estado).time_b@, final(estado).time_b@, eventos@, Lado::B),
        reposicao_de_jogada(old(estado).bola.posicao, final(estado).bola.posicao),
        eventos@.len() >= 1,
        forall|k: int| 0 <= k < eventos@.len() ==> ausencia_justificada(#[trigger] eventos@[k], old(estado).time_a@, old(estado).time_b@),
        (!todos_expulsos(old(estado).time_a@) && !todos_expulsos(old(estado).time_b@)) ==> (forall|k: int| 0 <= k < eventos@.len() ==> !evento_de_ausencia(#[trigger] eventos@[k])),
        (!todos_expulsos(old(estado).time_a@) && !todos_expulsos(old(estado).time_b@)) ==> (exists|k: int| 0 <= k < eventos@.len() && evento_de_acao(#[trigger] eventos@[k])),
        (todos_expulsos(old(estado).time_a@) && todos_expulsos(old(estado).time_b@)) ==> (eventos@.len() == 1 && eventos@[0] matches Evento::SemJogadorElegivel { .. }),
        forall|k: int| 0 <= k < eventos@.len() ==> evento_respeita(#[trigger] eventos@[k], old(estado).time_a@, old(estado).time_b@),
{
    estado.minuto = estado.minuto + 1;
    let lado: Lado = if fonte.sortear(0, 100) < 55 {
        Lado::A
    } else {
        Lado::B
    };
    let mut eventos: Vec<Evento> = Vec::new();
    let atacante_opt: Option<usize> = match lado {
        Lado::A => selecionar_elegivel(&estado.time_a, fonte),
        Lado::B => selecionar_elegivel(&estado.time_b, fonte),
    };
    match atacante_opt {
        None => {
            registrar_evento(&mut eventos, Evento::SemJogadorElegivel { lado });
        },
        Some(atacante) => {
            let defensor_opt: Option<usize> = match lado {
                Lado::A => selecionar_elegivel(&estado.time_b, fonte),
                Lado::B => selecionar_elegivel(&estado.time_a, fonte),
            };
            if defensor_opt.is_none() {
                registrar_evento(
                    &mut eventos,
                    Evento::SemDefensorElegivel { lado: lado_oposto(lado) },
                );
            }
            let ghost antes_acao = eventos@;
            let mut evs_acao = resolver_acao(estado, lado, atacante, defensor_opt, config, fonte);
            let ghost seq_acao = evs_acao@;
            eventos.append(&mut evs_acao);
            proof {
                lema_contar_concat_todos(antes_acao, seq_acao);
                lema_contar_cartoes_concat_todos(antes_acao, seq_acao);
            }
            match defensor_opt {
                Some(d) => {
                    let ghost antes_disc = eventos@;
                    let mut evs_disc = resolver_disciplina(estado, lado_oposto(lado), d, fonte);
                    let ghost seq_disc = evs_disc@;
                    eventos.append(&mut evs_disc);
                    proof {
                        lema_contar_concat_todos(antes_disc, seq_disc);
                        lema_contar_cartoes_concat_todos(antes_disc, seq_disc);
                    }
                },
                None => {},
            }
        },
    }
    eventos
}


/// Drives the resolver for a fixed number of ticks and returns the ordered
/// events of the whole stretch. Against the starting state: the tick index
/// advanced by exactly `minutos`; every agent kept identity and ratings and
/// moved its disciplinary record only forward; each side's counters grew by
/// exactly the events emitted for it — in particular each final goal count
/// is the starting count plus that side's emitted goals; and no event names
/// an agent that was already sent off when the stretch began.
pub fn simular_partida(
    estado: &mut Estado,
    config: &Config,
    minutos: u32,
    fonte: &mut Fonte,
) -> (eventos: Vec<Evento>)
    requires
        old(estado).bem_formado(),
        old(estado).minuto + minutos <= u32::MAX,
    ensures
        final(estado).bem_formado(),
        final(estado).minuto == old(estado).minuto + minutos,
        final(estado).time_a@.len() == old(estado).time_a@.len(),
        final(estado).time_b@.len() == old(estado).time_b@.len(),
        forall|i: int| 0 <= i < old(estado).time_a@.len() ==> mesmo_perfil(old(estado).time_a@[i], #[trigger] final(estado).time_a@[i]),
        forall|i: int| 0 <= i < old(estado).time_b@.len() ==> mesmo_perfil(old(estado).time_b@[i], #[trigger] final(estado).time_b@[i]),
        forall|i: int| 0 <= i < old(estado).time_a@.len() ==> disciplina_avanca(old(estado).time_a@[i], #[trigger] final(estado).time_a@[i]),
        forall|i: int| 0 <= i < old(estado).time_b@.len() ==> disciplina_avanca(old(estado).time_b@[i], #[trigger] final(estado).time_b@[i]),
        final(estado).goleiro_a == old(estado).goleiro_a,
        final(estado).goleiro_b == old(estado).goleiro_b,
        estat_avancou(old(estado).estat_a, final(estado).estat_a, eventos@, Lado::A),
        estat_avancou(old(estado).estat_b, final(estado).estat_b, eventos@, Lado::B),
        Estatisticas::nunca_diminui(old(estado).estat_a, final(estado).estat_a),
        Estatisticas::nunca_diminui(old(estado).estat_b, final(estado).estat_b),
        disciplina_avancou(old(estado).time_a@, final(estado).time_a@, eventos@, Lado::A),
        disciplina_avancou(old(estado).time_b@, final(estado).time_b@, eventos@, Lado::B),
        reposicao_de_jogada(old(estado).bola.posicao, final(estado).bola.posicao),
        eventos@.len() >= minutos,
        forall|k: int| 0 <= k < eventos@.len() ==> ausencia_justificada(#[trigger] eventos@[k], final(estado).time_a@, final(estado).time_b@),
        (todos_expulsos(old(estado).time_a@) && todos_expulsos(old(estado).time_b@)) ==> (eventos@.len() == minutos && (forall|k: int| 0 <= k < eventos@.len() ==> (#[trigger] eventos@[k]) matches Evento::SemJogadorElegivel { .. })),
        forall|k: int| 0 <= k < eventos@.len() ==> evento_respeita(#[trigger] eventos@[k], old(estado).time_a@, old(estado).time_b@),
{
    let mut eventos: Vec<Evento> = Vec::new();
    let mut t: u32 = 0;
    while t < minutos
        invariant
            t <= minutos,
            old(estado).minuto + minutos <= u32::MAX,
            estado.bem_formado(),
            estado.minuto == old(estado).minuto + t,
            estado.time_a@.len() == old(estado).time_a@.len(),
            estado.time_b@.len() == old(estado).time_b@.len(),
            forall|i: int| 0 <= i < old(estado).time_a@.len() ==> mesmo_perfil(old(estado).time_a@[i], #[trigger] estado.time_a@[i]),
            forall|i: int| 0 <= i < old(estado).time_b@.len() ==> mesmo_perfil(old(estado).time_b@[i], #[trigger] estado.time_b@[i]),
            forall|i: int| 0 <= i < old(estado).time_a@.len() ==> disciplina_avanca(old(estado).time_a@[i], #[trigger] estado.time_a@[i]),
            forall|i: int| 0 <= i < old(estado).time_b@.len() ==> disciplina_avanca(old(estado).time_b@[i], #[trigger] estado.time_b@[i]),
            estado.goleiro_a == old(estado).goleiro_a,
            estado.goleiro_b == old(estado).goleiro_b,
            estat_avancou(old(estado).estat_a, estado.estat_a, eventos@, Lado::A),
            estat_avancou(old(estado).estat_b, estado.estat_b, eventos@, Lado::B),
            disciplina_avancou(old(estado).time_a@, estado.time_a@, eventos@, Lado::A),
            disciplina_avancou(old(estado).time_b@, estado.time_b@, eventos@, Lado::B),
            reposicao_de_jogada(old(estado).bola.posicao, estado.bola.posicao),
            eventos@.len() >= t,
            forall|k: int| 0 <= k < eventos@.len() ==> ausencia_justificada(#[trigger] eventos@[k], estado.time_a@, estado.time_b@),
            (todos_expulsos(old(estado).time_a@) && todos_expulsos(old(estado).time_b@)) ==> (eventos@.len() == t && (forall|k: int| 0 <= k < eventos@.len() ==> (#[trigger] eventos@[k]) matches Evento::SemJogadorElegivel { .. })),
            forall|k: int| 0 <= k < eventos@.len() ==> evento_respeita(#[trigger] eventos@[k], old(estado).time_a@, old(estado).time_b@),
        decreases minutos - t,
    {
        let ghost antes = eventos@;
        let ghost elenco_a_antes = estado.time_a@;
        let ghost elenco_b_antes = estado.time_b@;
        let mut evs = resolver_tick(estado, config, fonte);
        let ghost seq_tick = evs@;
        eventos.append(&mut evs);
        proof {
            lema_contar_concat_todos(antes, seq_tick);
            lema_contar_cartoes_concat_todos(antes, seq_tick);
            assert forall|k: int| 0 <= k < eventos@.len() implies evento_respeita(
                #[trigger] eventos@[k],
                old(estado).time_a@,
                old(estado).time_b@,
            ) by {
                if k >= antes.len() {
                    lema_respeita_monotonia(
                        eventos@[k],
                        old(estado).time_a@,
                        old(estado).time_b@,
                        elenco_a_antes,
                        elenco_b_antes,
                    );
                }
            }
            assert forall|k: int| 0 <= k < eventos@.len() implies ausencia_justificada(
                #[trigger] eventos@[k],
                estado.time_a@,
                estado.time_b@,
            ) by {
                lema_ausencia_monotonia(
                    eventos@[k],
                    elenco_a_antes,
                    elenco_b_antes,
                    estado.time_a@,
                    estado.time_b@,
                );
            }
        }
        t = t + 1;
    }
    eventos
}

} // verus!
