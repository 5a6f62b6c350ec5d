use futsim::campo::{Alvo, Bola, Posicao, classificar_alvo, verificar_saida_bola};
use futsim::checagem::{simular_evento, simular_evento_com_sorteio};
use futsim::evento::{Evento, Lado};
use futsim::fonte::Fonte;
use futsim::jogador::{Goleiro, Jogador};
use futsim::partida::{
    Config, DesfechoChute, Estado, criar_time, decidir_desfecho, resolver_chute_no_alvo,
    selecionar_elegivel, simular_partida,
};
use futsim::{CAMPO_ALTURA, CAMPO_LARGURA, GOL_Y_MAX, GOL_Y_MIN};

fn jogador_de_teste(id: u32, fonte: &mut Fonte) -> Jogador {
    Jogador::new(id, 80, 70, 75, 65, 10, 2, fonte)
}

#[test]
fn frequencia_converge_para_chance_efetiva() {
    // chance 70, luck 0: the empirical frequency over many draws must sit
    // within 2% of 70%
    let mut fonte = Fonte::nova(1234);
    let total: u32 = 10000;
    let mut sucessos: u32 = 0;
    for _ in 0..total {
        if simular_evento(70, 0, &mut fonte) {
            sucessos += 1;
        }
    }
    assert!(sucessos >= 6800, "frequencia baixa demais: {}", sucessos);
    assert!(sucessos <= 7200, "frequencia alta demais: {}", sucessos);
}

#[test]
fn frequencia_com_sorte_converge() {
    // chance 80 plus luck 5: effective 85
    let mut fonte = Fonte::nova(99);
    let total: u32 = 10000;
    let mut sucessos: u32 = 0;
    for _ in 0..total {
        if simular_evento(80, 5, &mut fonte) {
            sucessos += 1;
        }
    }
    assert!(sucessos >= 8300, "frequencia baixa demais: {}", sucessos);
    assert!(sucessos <= 8700, "frequencia alta demais: {}", sucessos);
}

#[test]
fn chance_efetiva_nos_extremos() {
    let mut fonte = Fonte::nova(7);
    for _ in 0..200 {
        assert!(simular_evento(100, 5, &mut fonte));
        assert!(!simular_evento(0, -5, &mut fonte));
    }
}

#[test]
fn checagem_com_sorteio_fixado() {
    // pass accuracy 80, luck 5: effective chance 85; a draw of 10 succeeds
    assert!(simular_evento_com_sorteio(80, 5, 10));
    // the same check fails on a draw of 85 or more
    assert!(!simular_evento_com_sorteio(80, 5, 85));
    assert!(!simular_evento_com_sorteio(80, 5, 99));
    // clamping: 98 + 5 caps at 100, 3 - 5 caps at 0
    assert!(simular_evento_com_sorteio(98, 5, 99));
    assert!(!simular_evento_com_sorteio(3, -5, 0));
}

#[test]
fn cartao_amarelo_expulsa_na_segunda_vez() {
    let mut fonte = Fonte::nova(1);
    let mut j = jogador_de_teste(1, &mut fonte);
    assert_eq!(j.yellow_cards, 0);
    assert!(!j.red_card);
    assert!(!j.aplicar_cartao_amarelo());
    assert_eq!(j.yellow_cards, 1);
    assert!(!j.red_card);
    // the second card is the exact moment of the send-off
    assert!(j.aplicar_cartao_amarelo());
    assert_eq!(j.yellow_cards, 2);
    assert!(j.red_card);
    // further cards keep counting but never report a fresh send-off
    assert!(!j.aplicar_cartao_amarelo());
    assert_eq!(j.yellow_cards, 3);
    assert!(j.red_card);
}

#[test]
fn selecao_com_um_unico_elegivel_nunca_falha() {
    // eleven agents, ten sent off: selection must give exactly the one left
    let mut fonte = Fonte::nova(5);
    let mut time: Vec<Jogador> = Vec::new();
    for id in 1..=11 {
        time.push(jogador_de_teste(id, &mut fonte));
    }
    for (k, j) in time.iter_mut().enumerate() {
        if k != 7 {
            j.aplicar_cartao_amarelo();
            j.aplicar_cartao_amarelo();
            assert!(j.red_card);
        }
    }
    for semente in 0..50 {
        let mut f = Fonte::nova(semente);
        assert_eq!(selecionar_elegivel(&time, &mut f), Some(7));
    }
}

#[test]
fn selecao_sem_elegiveis_devolve_ausencia() {
    let mut fonte = Fonte::nova(6);
    let mut time: Vec<Jogador> = Vec::new();
    for id in 1..=5 {
        let mut j = jogador_de_teste(id, &mut fonte);
        j.aplicar_cartao_amarelo();
        j.aplicar_cartao_amarelo();
        time.push(j);
    }
    assert_eq!(selecionar_elegivel(&time, &mut fonte), None);
    let vazio: Vec<Jogador> = Vec::new();
    assert_eq!(selecionar_elegivel(&vazio, &mut fonte), None);
}

#[test]
fn chute_na_trave_nunca_vira_gol() {
    // a shot whose height matches a post must end on the post, whatever the
    // keeper would have done
    for semente in 0..50 {
        let mut fonte = Fonte::nova(semente);
        let goleiro = Goleiro::new(0, 0, -5);  // a keeper that never saves
        let d = resolver_chute_no_alvo(GOL_Y_MIN, &goleiro, true, &mut fonte);
        assert_eq!(d, DesfechoChute::NaTrave);
        let d = resolver_chute_no_alvo(GOL_Y_MAX, &goleiro, true, &mut fonte);
        assert_eq!(d, DesfechoChute::NaTrave);
    }
}

#[test]
fn chute_fora_do_gol_nunca_marca() {
    // without a keeper, an on-target-band shot outside the goal mouth is
    // explicitly no goal, and one inside always scores
    for semente in 0..20 {
        let mut fonte = Fonte::nova(semente);
        let goleiro = Goleiro::new(0, 80, 0);
        assert_eq!(
            resolver_chute_no_alvo(GOL_Y_MIN - 1, &goleiro, false, &mut fonte),
            DesfechoChute::ForaDoGol
        );
        assert_eq!(
            resolver_chute_no_alvo(GOL_Y_MAX + 2, &goleiro, false, &mut fonte),
            DesfechoChute::ForaDoGol
        );
        assert_eq!(
            resolver_chute_no_alvo(GOL_Y_MIN + 1, &goleiro, false, &mut fonte),
            DesfechoChute::Gol
        );
    }
}

#[test]
fn geometria_do_alvo() {
    assert_eq!(classificar_alvo(GOL_Y_MIN), Alvo::Trave);
    assert_eq!(classificar_alvo(GOL_Y_MAX), Alvo::Trave);
    assert_eq!(classificar_alvo(GOL_Y_MIN + 1), Alvo::DentroDoGol);
    assert_eq!(classificar_alvo(GOL_Y_MAX - 1), Alvo::DentroDoGol);
    assert_eq!(classificar_alvo(GOL_Y_MIN - 1), Alvo::ForaDoGol);
    assert_eq!(classificar_alvo(GOL_Y_MAX + 1), Alvo::ForaDoGol);
}

#[test]
fn bola_comeca_no_centro_e_se_move() {
    let mut bola = Bola::new();
    assert_eq!(bola.posicao.x, CAMPO_LARGURA / 2);
    assert_eq!(bola.posicao.y, CAMPO_ALTURA / 2);
    bola.mover(Posicao { x: 3, y: 4 });
    assert_eq!(bola.posicao.x, 3);
    assert_eq!(bola.posicao.y, 4);
}

#[test]
fn saida_da_bola_classificada() {
    let mut bola = Bola::new();
    assert_eq!(verificar_saida_bola(&bola), None);
    bola.mover(Posicao { x: -1, y: 10 });
    assert_eq!(verificar_saida_bola(&bola), Some("Lateral"));
    bola.mover(Posicao { x: CAMPO_LARGURA + 1, y: 10 });
    assert_eq!(verificar_saida_bola(&bola), Some("Lateral"));
    bola.mover(Posicao { x: 10, y: -1 });
    assert_eq!(verificar_saida_bola(&bola), Some("Escanteio"));
    bola.mover(Posicao { x: 10, y: CAMPO_ALTURA + 1 });
    assert_eq!(verificar_saida_bola(&bola), Some("Escanteio"));
    bola.mover(Posicao { x: 0, y: 0 });
    assert_eq!(verificar_saida_bola(&bola), None);
}

#[test]
fn elenco_gerado_dentro_das_faixas() {
    let mut fonte = Fonte::nova(77);
    let (time, goleiro) = criar_time(&mut fonte);
    assert_eq!(time.len(), 10);
    for (k, j) in time.iter().enumerate() {
        assert_eq!(j.id as usize, k + 1);
        assert!(j.pass_accuracy >= 60 && j.pass_accuracy <= 90);
        assert!(j.dribble_skill >= 50 && j.dribble_skill <= 80);
        assert!(j.shot_accuracy >= 60 && j.shot_accuracy <= 85);
        assert!(j.defense_skill >= 50 && j.defense_skill <= 84);
        assert!(j.foul_tendency >= 5 && j.foul_tendency <= 15);
        assert!(j.luck >= -5 && j.luck <= 5);
        assert_eq!(j.yellow_cards, 0);
        assert!(!j.red_card);
    }
    assert_eq!(goleiro.id, 0);
    assert!(goleiro.save_skill >= 70 && goleiro.save_skill <= 90);
    assert!(goleiro.luck >= -5 && goleiro.luck <= 5);
}

#[test]
fn estado_rejeita_atributos_fora_da_faixa() {
    let mut fonte = Fonte::nova(8);
    let (time_a, goleiro_a) = criar_time(&mut fonte);
    let (mut time_b, goleiro_b) = criar_time(&mut fonte);
    time_b[3].pass_accuracy = 101;
    assert!(Estado::novo(time_a.clone(), goleiro_a.clone(), time_b, goleiro_b.clone()).is_none());
    let (time_b2, _) = criar_time(&mut fonte);
    let goleiro_ruim = Goleiro::new(0, 120, 0);
    assert!(Estado::novo(time_a, goleiro_ruim, time_b2, goleiro_b).is_none());
}

fn partida_completa(semente: u64) -> (Estado, Vec<Evento>) {
    let mut fonte = Fonte::nova(semente);
    let (time_a, goleiro_a) = criar_time(&mut fonte);
    let (time_b, goleiro_b) = criar_time(&mut fonte);
    let mut estado = Estado::novo(time_a, goleiro_a, time_b, goleiro_b)
        .expect("elencos gerados dentro das faixas");
    let config = Config::completa();
    let eventos = simular_partida(&mut estado, &config, 90, &mut fonte);
    (estado, eventos)
}

#[test]
fn partida_reproduzivel_com_mesma_semente() {
    // the round trip: the same seed and the same rosters give byte-identical
    // events and the same box score
    let (estado1, eventos1) = partida_completa(2024);
    let (estado2, eventos2) = partida_completa(2024);
    assert_eq!(eventos1, eventos2);
    assert_eq!(estado1.estat_a, estado2.estat_a);
    assert_eq!(estado1.estat_b, estado2.estat_b);
    assert_eq!(estado1.minuto, estado2.minuto);
}

#[test]
fn placar_igual_aos_eventos_de_gol() {
    for semente in [1u64, 42, 1000, 77777] {
        let (estado, eventos) = partida_completa(semente);
        let gols_a = eventos
            .iter()
            .filter(|e| matches!(e, Evento::Gol { lado: Lado::A, .. }))
            .count();
        let gols_b = eventos
            .iter()
            .filter(|e| matches!(e, Evento::Gol { lado: Lado::B, .. }))
            .count();
        assert_eq!(estado.estat_a.gols as usize, gols_a);
        assert_eq!(estado.estat_b.gols as usize, gols_b);
        assert_eq!(estado.minuto, 90);
    }
}

#[test]
fn contadores_casam_com_os_eventos() {
    let (estado, eventos) = partida_completa(31415);
    let conta = |f: &dyn Fn(&Evento) -> bool| eventos.iter().filter(|e| f(e)).count();
    assert_eq!(
        estado.estat_a.faltas as usize,
        conta(&|e| matches!(e, Evento::Falta { lado: Lado::A, .. }))
    );
    assert_eq!(
        estado.estat_b.faltas as usize,
        conta(&|e| matches!(e, Evento::Falta { lado: Lado::B, .. }))
    );
    assert_eq!(
        estado.estat_a.cartoes_amarelos as usize,
        conta(&|e| matches!(e, Evento::CartaoAmarelo { lado: Lado::A, .. }))
    );
    assert_eq!(
        estado.estat_a.cartoes_vermelhos as usize,
        conta(&|e| matches!(e, Evento::CartaoVermelho { lado: Lado::A, .. }))
    );
    assert_eq!(
        estado.estat_a.escanteios as usize,
        conta(&|e| matches!(e, Evento::ChuteDefendidoEscanteio { lado: Lado::A, .. }))
    );
    assert_eq!(estado.estat_a.impedimentos, 0);
    assert_eq!(estado.estat_b.impedimentos, 0);
}

#[test]
fn expulso_nunca_volta_a_jogar() {
    // send off most of side A before the match; no event may name them
    let mut fonte = Fonte::nova(55);
    let (mut time_a, goleiro_a) = criar_time(&mut fonte);
    let (time_b, goleiro_b) = criar_time(&mut fonte);
    for k in 0..8 {
        time_a[k].aplicar_cartao_amarelo();
        time_a[k].aplicar_cartao_amarelo();
    }
    let mut estado =
        Estado::novo(time_a, goleiro_a, time_b, goleiro_b).expect("elencos dentro das faixas");
    let config = Config::completa();
    let eventos = simular_partida(&mut estado, &config, 90, &mut fonte);
    for e in &eventos {
        let participante_a: Option<usize> = match *e {
            Evento::PasseCompleto { lado: Lado::A, jogador } => Some(jogador),
            Evento::PasseInterceptado { lado: Lado::A, jogador, .. } => Some(jogador),
            Evento::PasseInterceptado { lado: Lado::B, defensor, .. } => Some(defensor),
            Evento::PasseNaLateral { lado: Lado::A, jogador } => Some(jogador),
            Evento::DribleCompleto { lado: Lado::A, jogador } => Some(jogador),
            Evento::DribleInterceptado { lado: Lado::A, jogador, .. } => Some(jogador),
            Evento::DribleInterceptado { lado: Lado::B, defensor, .. } => Some(defensor),
            Evento::DribleFalhou { lado: Lado::A, jogador } => Some(jogador),
            Evento::ChuteNaTrave { lado: Lado::A, jogador } => Some(jogador),
            Evento::ChuteDefendidoEscanteio { lado: Lado::A, jogador } => Some(jogador),
            Evento::ChuteDefendidoSeguro { lado: Lado::A, jogador } => Some(jogador),
            Evento::Gol { lado: Lado::A, jogador } => Some(jogador),
            Evento::ChuteForaDoGol { lado: Lado::A, jogador } => Some(jogador),
            Evento::ChuteNaLateral { lado: Lado::A, jogador } => Some(jogador),
            Evento::ChuteNaLinhaDeFundo { lado: Lado::A, jogador } => Some(jogador),
            Evento::ChuteFora { lado: Lado::A, jogador } => Some(jogador),
            Evento::Falta { lado: Lado::A, defensor } => Some(defensor),
            Evento::CartaoAmarelo { lado: Lado::A, defensor } => Some(defensor),
            Evento::CartaoVermelho { lado: Lado::A, defensor } => Some(defensor),
            _ => None,
        };
        if let Some(i) = participante_a {
            assert!(i >= 8, "agente expulso selecionado: {:?}", e);
        }
    }
}

#[test]
fn tick_sem_elegiveis_nao_trava() {
    // a side entirely sent off must resolve every tick without panicking
    let mut fonte = Fonte::nova(60);
    let (mut time_a, goleiro_a) = criar_time(&mut fonte);
    let (mut time_b, goleiro_b) = criar_time(&mut fonte);
    for j in time_a.iter_mut() {
        j.aplicar_cartao_amarelo();
        j.aplicar_cartao_amarelo();
    }
    for j in time_b.iter_mut() {
        j.aplicar_cartao_amarelo();
        j.aplicar_cartao_amarelo();
    }
    let mut estado =
        Estado::novo(time_a, goleiro_a, time_b, goleiro_b).expect("elencos dentro das faixas");
    let config = Config::completa();
    let eventos = simular_partida(&mut estado, &config, 90, &mut fonte);
    assert_eq!(eventos.len(), 90);
    for e in &eventos {
        assert!(matches!(e, Evento::SemJogadorElegivel { .. }));
    }
    assert_eq!(estado.estat_a.gols, 0);
    assert_eq!(estado.estat_b.gols, 0);
}

#[test]
fn variantes_reduzidas_resolvem() {
    // the collapsed variants still run a full match
    for config in [
        Config { habilitar_drible: false, habilitar_geometria: false, habilitar_goleiro: false },
        Config { habilitar_drible: false, habilitar_geometria: false, habilitar_goleiro: true },
        Config { habilitar_drible: true, habilitar_geometria: false, habilitar_goleiro: true },
    ] {
        let mut fonte = Fonte::nova(123);
        let (time_a, goleiro_a) = criar_time(&mut fonte);
        let (time_b, goleiro_b) = criar_time(&mut fonte);
        let mut estado =
            Estado::novo(time_a, goleiro_a, time_b, goleiro_b).expect("elencos dentro das faixas");
        let eventos = simular_partida(&mut estado, &config, 90, &mut fonte);
        assert_eq!(estado.minuto, 90);
        assert!(!eventos.is_empty());
        if !config.habilitar_drible {
            assert!(!eventos.iter().any(|e| matches!(
                e,
                Evento::DribleCompleto { .. }
                    | Evento::DribleInterceptado { .. }
                    | Evento::DribleFalhou { .. }
            )));
        }
        if !config.habilitar_geometria {
            assert!(!eventos.iter().any(|e| matches!(
                e,
                Evento::ChuteNaTrave { .. } | Evento::ChuteForaDoGol { .. }
            )));
        }
        if !config.habilitar_goleiro {
            assert!(!eventos.iter().any(|e| matches!(
                e,
                Evento::ChuteDefendidoEscanteio { .. } | Evento::ChuteDefendidoSeguro { .. }
            )));
        }
    }
}

#[test]
fn desfecho_do_chute_totalmente_determinado() {
    assert_eq!(decidir_desfecho(Alvo::Trave, false, false), DesfechoChute::NaTrave);
    assert_eq!(decidir_desfecho(Alvo::Trave, true, true), DesfechoChute::NaTrave);
    assert_eq!(decidir_desfecho(Alvo::DentroDoGol, true, true), DesfechoChute::DefesaEscanteio);
    assert_eq!(decidir_desfecho(Alvo::DentroDoGol, true, false), DesfechoChute::DefesaSegura);
    assert_eq!(decidir_desfecho(Alvo::DentroDoGol, false, false), DesfechoChute::Gol);
    assert_eq!(decidir_desfecho(Alvo::ForaDoGol, true, true), DesfechoChute::DefesaEscanteio);
    assert_eq!(decidir_desfecho(Alvo::ForaDoGol, true, false), DesfechoChute::DefesaSegura);
    assert_eq!(decidir_desfecho(Alvo::ForaDoGol, false, false), DesfechoChute::ForaDoGol);
}

#[test]
fn goleiro_nos_extremos_da_defesa() {
    // a keeper whose effective save chance is zero never stops a shot in
    // the goal mouth; one at a hundred never concedes off the posts
    let nunca_defende = Goleiro::new(0, 0, -5);
    let sempre_defende = Goleiro::new(0, 100, 5);
    for semente in 0..30 {
        let mut fonte = Fonte::nova(semente);
        assert_eq!(
            resolver_chute_no_alvo(GOL_Y_MIN + 2, &nunca_defende, true, &mut fonte),
            DesfechoChute::Gol
        );
        assert_eq!(
            resolver_chute_no_alvo(GOL_Y_MIN - 1, &nunca_defende, true, &mut fonte),
            DesfechoChute::ForaDoGol
        );
        let d = resolver_chute_no_alvo(GOL_Y_MIN + 2, &sempre_defende, true, &mut fonte);
        assert!(matches!(d, DesfechoChute::DefesaEscanteio | DesfechoChute::DefesaSegura));
    }
}

#[test]
fn cartoes_pessoais_casam_com_os_eventos() {
    // each agent's personal record equals the card events booking it
    let (estado, eventos) = partida_completa(909);
    for (lado, time) in [(Lado::A, &estado.time_a), (Lado::B, &estado.time_b)] {
        for (i, j) in time.iter().enumerate() {
            let amarelos = eventos
                .iter()
                .filter(|e| matches!(e, Evento::CartaoAmarelo { lado: l, defensor } if *l == lado && *defensor == i))
                .count();
            let vermelhos = eventos
                .iter()
                .filter(|e| matches!(e, Evento::CartaoVermelho { lado: l, defensor } if *l == lado && *defensor == i))
                .count();
            assert_eq!(j.yellow_cards as usize, amarelos);
            assert_eq!(j.red_card, vermelhos >= 1);
        }
    }
}

#[test]
fn bola_termina_onde_uma_jogada_pode_deixar() {
    // the ball ends at the kickoff spot or where a pass or shot may put it
    for semente in [3u64, 17, 404] {
        let (estado, _) = partida_completa(semente);
        let p = estado.bola.posicao;
        let centro = p.x == CAMPO_LARGURA / 2 && p.y == CAMPO_ALTURA / 2;
        let lateral = (p.x == 0 || p.x == CAMPO_LARGURA - 1) && p.y >= 0 && p.y < CAMPO_ALTURA;
        let alvo = p.x == 0 && p.y >= GOL_Y_MIN - 2 && p.y < GOL_Y_MAX + 3;
        let desvio = p.x >= -5 && p.x < CAMPO_LARGURA + 5 && p.y >= -5 && p.y < CAMPO_ALTURA + 5;
        assert!(centro || lateral || alvo || desvio, "bola em {:?}", p);
    }
}

