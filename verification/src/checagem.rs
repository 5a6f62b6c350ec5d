//! The probability-chain primitive. Every skill check of the engine — pass,
//! dribble, shot, interception, foul, save — is one draw from the shared
//! source compared against an effective chance.

use vstd::prelude::*;

verus! {

use crate::fonte::Fonte;
use crate::jogador::Jogador;
use crate::jogador::atributos_validos;

/// The effective chance of a check: base chance plus luck, clamped to
/// [0, 100].
pub open spec fn efetiva(chance: int, sorte: int) -> int {
    if chance + sorte < 0 {
        0
    } else if chance + sorte > 100 {
        100
    } else {
        chance + sorte
    }
}

/// The outcome of a skill check once the uniform draw is fixed: true exactly
/// when the draw falls below the effective chance.
pub fn simular_evento_com_sorteio(chance: u8, sorte: i8, sorteio: u8) -> (r: bool)
    requires
        chance <= 100,
        -5 <= sorte <= 5,
        sorteio < 100,
    ensures
        r == (sorteio < efetiva(chance as int, sorte as int)),
{
    let soma: i32 = chance as i32 + sorte as i32;
    let efetivo: i32 = if soma < 0 {
        0
    } else if soma > 100 {
        100
    } else {
        soma
    };
    (sorteio as i32) < efetivo
}

/// One skill check: consumes exactly one uniform draw in [0, 100) from the
/// source and compares it against the effective chance. The outcome of any
/// single call is unconstrained except at the extremes of the chance.
pub fn simular_evento(chance: u8, sorte: i8, fonte: &mut Fonte) -> (r: bool)
    requires
        chance <= 100,
        -5 <= sorte <= 5,
    ensures
        efetiva(chance as int, sorte as int) == 0 ==> !r,
        efetiva(chance as int, sorte as int) == 100 ==> r,
{
    let sorteio = fonte.sortear(0, 100);
    simular_evento_com_sorteio(chance, sorte, sorteio as u8)
}

/// Pass check: the player's pass accuracy against one draw.
pub fn simular_passe(jogador: &Jogador, fonte: &mut Fonte) -> (r: bool)
    requires
        atributos_validos(*jogador),
    ensures
        efetiva(jogador.pass_accuracy as int, jogador.luck as int) == 0 ==> !r,
        efetiva(jogador.pass_accuracy as int, jogador.luck as int) == 100 ==> r,
{
    simular_evento(jogador.pass_accuracy, jogador.luck, fonte)
}

/// Dribble check: the player's dribble skill against one draw.
pub fn simular_drible(jogador: &Jogador, fonte: &mut Fonte) -> (r: bool)
    requires
        atributos_validos(*jogador),
    ensures
        efetiva(jogador.dribble_skill as int, jogador.luck as int) == 0 ==> !r,
        efetiva(jogador.dribble_skill as int, jogador.luck as int) == 100 ==> r,
{
    simular_evento(jogador.dribble_skill, jogador.luck, fonte)
}

/// Shot check: the player's shot accuracy against one draw.
pub fn simular_chute(jogador: &Jogador, fonte: &mut Fonte) -> (r: bool)
    requires
        atributos_validos(*jogador),
    ensures
        efetiva(jogador.shot_accuracy as int, jogador.luck as int) == 0 ==> !r,
        efetiva(jogador.shot_accuracy as int, jogador.luck as int) == 100 ==> r,
{
    simular_evento(jogador.shot_accuracy, jogador.luck, fonte)
}

/// Interception check: the defender's defense skill against one draw.
pub fn simular_interceptacao(defensor: &Jogador, fonte: &mut Fonte) -> (r: bool)
    requires
        atributos_validos(*defensor),
    ensures
        efetiva(defensor.defense_skill as int, defensor.luck as int) == 0 ==> !r,
        efetiva(defensor.defense_skill as int, defensor.luck as int) == 100 ==> r,
{
    simular_evento(defensor.defense_skill, defensor.luck, fonte)
}

/// Foul check: the defender's foul tendency against one draw.
pub fn simular_falta(defensor: &Jogador, fonte: &mut Fonte) -> (r: bool)
    requires
        atributos_validos(*defensor),
    ensures
        efetiva(defensor.foul_tendency as int, defensor.luck as int) == 0 ==> !r,
        efetiva(defensor.foul_tendency as int, defensor.luck as int) == 100 ==> r,
{
    simular_evento(defensor.foul_tendency, defensor.luck, fonte)
}

} // verus!
