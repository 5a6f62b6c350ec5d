//! Spatial model: field coordinates, goal-mouth and post geometry, and the
//! boundary classification predicate applied to the ball.

use vstd::prelude::*;

verus! {

use crate::CAMPO_ALTURA;
use crate::CAMPO_LARGURA;
use crate::GOL_Y_MAX;
use crate::GOL_Y_MIN;

/// An integer point of the field plane.
#[derive(Debug, Clone, Copy, PartialEq, Eq, Structural)]
pub struct Posicao {
    pub x: i32,
    pub y: i32,
}

/// The single shared ball: one mutable position, repositioned by the
/// resolution outcomes of each tick.
#[derive(Debug, Clone)]
pub struct Bola {
    pub posicao: Posicao,
}

/// True when the position lies on the field, posts included.
pub open spec fn dentro_do_campo(p: Posicao) -> bool {
    &&& 0 <= p.x <= CAMPO_LARGURA
    &&& 0 <= p.y <= CAMPO_ALTURA
}

/// How a shot at height `y` on the goal line is classified by the goal
/// geometry: on a post, inside the goal mouth, or outside both.
#[derive(Debug, Clone, Copy, PartialEq, Eq, Structural)]
pub enum Alvo {
    Trave,
    DentroDoGol,
    ForaDoGol,
}

/// Geometric classification of a shot height against the goal mouth.
pub open spec fn classificacao_do_alvo(y: int) -> Alvo {
    if y == GOL_Y_MIN || y == GOL_Y_MAX {
        Alvo::Trave
    } else if GOL_Y_MIN < y < GOL_Y_MAX {
        Alvo::DentroDoGol
    } else {
        Alvo::ForaDoGol
    }
}

/// Classifies a shot height against the posts and the goal mouth.
pub fn classificar_alvo(y: i32) -> (a: Alvo)
    ensures
        a == classificacao_do_alvo(y as int),
{
    if y == GOL_Y_MIN || y == GOL_Y_MAX {
        Alvo::Trave
    } else if GOL_Y_MIN < y && y < GOL_Y_MAX {
        Alvo::DentroDoGol
    } else {
        Alvo::ForaDoGol
    }
}

impl Bola {
    /// A new ball, placed at the center of the field.
    pub fn new() -> (b: Bola)
        ensures
            b.posicao.x == CAMPO_LARGURA / 2,
            b.posicao.y == CAMPO_ALTURA / 2,
            dentro_do_campo(b.posicao),
    {
        Bola { posicao: Posicao { x: CAMPO_LARGURA / 2, y: CAMPO_ALTURA / 2 } }
    }

    /// Moves the ball to the given position.
    pub fn mover(&mut self, nova_posicao: Posicao)
        ensures
            final(self).posicao == nova_posicao,
    {
        self.posicao = nova_posicao;
    }
}

/// The two kinds of leaving the field: over a touchline, or over a goal
/// line.
#[derive(Debug, Clone, Copy, PartialEq, Eq, Structural)]
pub enum Saida {
    Lateral,
    Escanteio,
}

/// The boundary predicate: whether a position has left the field, and on
/// which kind of line. The x coordinate is examined first, so a position out
/// in both axes counts as a touchline exit.
pub fn classificar_saida(p: Posicao) -> (r: Option<Saida>)
    ensures
        r is Some <==> !dentro_do_campo(p),
        (p.x < 0 || p.x > CAMPO_LARGURA) ==> r == Some(Saida::Lateral),
        (0 <= p.x <= CAMPO_LARGURA && (p.y < 0 || p.y > CAMPO_ALTURA)) ==> r == Some(
            Saida::Escanteio,
        ),
{
    if p.x < 0 || p.x > CAMPO_LARGURA {
        Some(Saida::Lateral)
    } else if p.y < 0 || p.y > CAMPO_ALTURA {
        Some(Saida::Escanteio)
    } else {
        None
    }
}

/// Decides whether the ball has left the field, naming the kind of line:
/// past a touchline (`"Lateral"`), past a goal line (`"Escanteio"`), or
/// still in play (`None`).
pub fn verificar_saida_bola(bola: &Bola) -> (r: Option<&'static str>)
    ensures
        r is Some <==> !dentro_do_campo(bola.posicao),
        (bola.posicao.x < 0 || bola.posicao.x > CAMPO_LARGURA) ==> (r matches Some(s)
            && s@ == "Lateral"@),
        (0 <= bola.posicao.x <= CAMPO_LARGURA && (bola.posicao.y < 0 || bola.posicao.y
            > CAMPO_ALTURA)) ==> (r matches Some(s) && s@ == "Escanteio"@),
{
    match classificar_saida(bola.posicao) {
        Some(Saida::Lateral) => Some("Lateral"),
        Some(Saida::Escanteio) => Some("Escanteio"),
        None => None,
    }
}

} // verus!
