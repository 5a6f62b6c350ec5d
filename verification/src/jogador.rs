//! Agent model: outfield players with skill ratings and disciplinary state,
//! and goalkeepers with a save skill.

use vstd::prelude::*;

verus! {

use crate::CAMPO_ALTURA;
use crate::CAMPO_LARGURA;
use crate::campo::Posicao;
use crate::campo::dentro_do_campo;
use crate::fonte::Fonte;

/// One outfield player. Skill ratings are fixed for the match; only the
/// disciplinary fields (`yellow_cards`, `red_card`) are ever mutated, and
/// only by the foul-resolution step.
#[derive(Debug, Clone, Copy)]
pub struct Jogador {
    pub id: u32,
    pub posicao: Posicao,
    pub pass_accuracy: u8,
    pub dribble_skill: u8,
    pub shot_accuracy: u8,
    pub defense_skill: u8,
    pub foul_tendency: u8,
    pub luck: i8,
    pub yellow_cards: u8,
    pub red_card: bool,
}

/// All skill ratings within [0, 100] and luck within [-5, 5]. The roster
/// generator owes these ranges; every skill check requires them.
pub open spec fn atributos_validos(j: Jogador) -> bool {
    &&& j.pass_accuracy <= 100
    &&& j.dribble_skill <= 100
    &&& j.shot_accuracy <= 100
    &&& j.defense_skill <= 100
    &&& j.foul_tendency <= 100
    &&& -5 <= j.luck <= 5
}

/// The send-off flag agrees with the counter: red exactly from the second
/// yellow card on.
pub open spec fn disciplina_coerente(j: Jogador) -> bool {
    j.red_card == (j.yellow_cards >= 2)
}

/// Everything but the disciplinary fields is unchanged.
pub open spec fn mesmo_perfil(a: Jogador, b: Jogador) -> bool {
    &&& a.id == b.id
    &&& a.posicao == b.posicao
    &&& a.pass_accuracy == b.pass_accuracy
    &&& a.dribble_skill == b.dribble_skill
    &&& a.shot_accuracy == b.shot_accuracy
    &&& a.defense_skill == b.defense_skill
    &&& a.foul_tendency == b.foul_tendency
    &&& a.luck == b.luck
}

/// The disciplinary record only ever grows: the counter never decreases and
/// a send-off is never reset.
pub open spec fn disciplina_avanca(a: Jogador, b: Jogador) -> bool {
    &&& b.yellow_cards >= a.yellow_cards
    &&& (a.red_card ==> b.red_card)
}

impl Jogador {
    /// A new player with the given identity and ratings, a fresh disciplinary
    /// record, and a position drawn anywhere on the field. Range discipline
    /// for the ratings is the caller's contract, not checked here.
    pub fn new(
        id: u32,
        pass_accuracy: u8,
        dribble_skill: u8,
        shot_accuracy: u8,
        defense_skill: u8,
        foul_tendency: u8,
        luck: i8,
        fonte: &mut Fonte,
    ) -> (j: Jogador)
        ensures
            j.id == id,
            j.pass_accuracy == pass_accuracy,
            j.dribble_skill == dribble_skill,
            j.shot_accuracy == shot_accuracy,
            j.defense_skill == defense_skill,
            j.foul_tendency == foul_tendency,
            j.luck == luck,
            j.yellow_cards == 0,
            !j.red_card,
            dentro_do_campo(j.posicao),
    {
        let x = fonte.sortear(0, CAMPO_LARGURA as i64) as i32;
        let y = fonte.sortear(0, CAMPO_ALTURA as i64) as i32;
        Jogador {
            id,
            posicao: Posicao { x, y },
            pass_accuracy,
            dribble_skill,
            shot_accuracy,
            defense_skill,
            foul_tendency,
            luck,
            yellow_cards: 0,
            red_card: false,
        }
    }

    /// True when the ratings are inside their documented ranges.
    pub fn valido(&self) -> (r: bool)
        ensures
            r == atributos_validos(*self),
    {
        self.pass_accuracy <= 100 && self.dribble_skill <= 100 && self.shot_accuracy <= 100
            && self.defense_skill <= 100 && self.foul_tendency <= 100 && -5 <= self.luck
            && self.luck <= 5
    }

    /// Books the player: the counter always increments, the send-off flag is
    /// set from the second card on, and the result is true exactly on the
    /// booking that turns the player's record from one card to two — never
    /// again for a player already sent off.
    pub fn aplicar_cartao_amarelo(&mut self) -> (expulso_agora: bool)
        requires
            old(self).yellow_cards < 255,
        ensures
            mesmo_perfil(*old(self), *final(self)),
            final(self).yellow_cards == old(self).yellow_cards + 1,
            final(self).red_card == (old(self).red_card || final(self).yellow_cards >= 2),
            expulso_agora == (old(self).yellow_cards == 1 && !old(self).red_card),
            disciplina_avanca(*old(self), *final(self)),
            disciplina_coerente(*old(self)) ==> disciplina_coerente(*final(self)),
    {
        self.yellow_cards = self.yellow_cards + 1;
        let expulso_agora = self.yellow_cards == 2 && !self.red_card;
        if self.yellow_cards >= 2 {
            self.red_card = true;
        }
        expulso_agora
    }
}

/// The goalkeeper: a single save skill, a luck modifier, and a fixed
/// defensive position on the goal line.
#[derive(Debug, Clone, Copy)]
pub struct Goleiro {
    pub id: u32,
    pub posicao: Posicao,
    pub save_skill: u8,
    pub luck: i8,
}

/// Save skill within [0, 100] and luck within [-5, 5].
pub open spec fn goleiro_valido(g: Goleiro) -> bool {
    &&& g.save_skill <= 100
    &&& -5 <= g.luck <= 5
}

impl Goleiro {
    /// A new goalkeeper, stationed at the middle of the goal line.
    pub fn new(id: u32, save_skill: u8, luck: i8) -> (g: Goleiro)
        ensures
            g.id == id,
            g.save_skill == save_skill,
            g.luck == luck,
            g.posicao.x == 0,
            g.posicao.y == CAMPO_ALTURA / 2,
    {
        Goleiro { id, posicao: Posicao { x: 0, y: CAMPO_ALTURA / 2 }, save_skill, luck }
    }

    /// True when the save skill and luck are inside their documented ranges.
    pub fn valido(&self) -> (r: bool)
        ensures
            r == goleiro_valido(*self),
    {
        self.save_skill <= 100 && -5 <= self.luck && self.luck <= 5
    }

    /// One save attempt: a skill check on the keeper's save rating.
    pub fn tentar_defender(&self, fonte: &mut Fonte) -> (r: bool)
        requires
            goleiro_valido(*self),
        ensures
            crate::checagem::efetiva(self.save_skill as int, self.luck as int) == 0 ==> !r,
            crate::checagem::efetiva(self.save_skill as int, self.luck as int) == 100 ==> r,
    {
        crate::checagem::simular_evento(self.save_skill, self.luck, fonte)
    }
}

} // verus!
