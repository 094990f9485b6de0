use tentrackule::discord::grade::{evaluate, Grade, GradeInput};
use tentrackule::riot::types::Ratio;

fn r(num: i64, den: i64) -> Ratio {
    Ratio { num, den }
}

#[test]
fn dominant_game_is_s_plus() {
    let g = evaluate(&GradeInput {
        role: "JUNGLE",
        kda: r(20, 1),
        kp: 71,
        cs_per_min: r(93, 10),
        damage_share: 34,
        vision_per_min: r(9, 10),
    });
    assert_eq!(g, Grade::SPlus, "expected S+, got {}", g.label());
}

#[test]
fn feeding_game_is_d() {
    let g = evaluate(&GradeInput {
        role: "BOTTOM",
        kda: r(3, 10),
        kp: 20,
        cs_per_min: r(3, 1),
        damage_share: 8,
        vision_per_min: r(2, 10),
    });
    assert_eq!(g, Grade::D, "expected D, got {}", g.label());
}

#[test]
fn baseline_game_is_s() {
    let g = evaluate(&GradeInput {
        role: "MIDDLE",
        kda: r(45, 10),
        kp: 60,
        cs_per_min: r(75, 10),
        damage_share: 27,
        vision_per_min: r(8, 10),
    });
    assert_eq!(g, Grade::S);
}

#[test]
fn role_relative_scoring() {
    let support = evaluate(&GradeInput {
        role: "UTILITY",
        kda: r(4, 1),
        kp: 70,
        cs_per_min: r(16, 10),
        damage_share: 12,
        vision_per_min: r(2, 1),
    });
    let adc_same = evaluate(&GradeInput {
        role: "BOTTOM",
        kda: r(4, 1),
        kp: 70,
        cs_per_min: r(16, 10),
        damage_share: 12,
        vision_per_min: r(2, 1),
    });
    assert!(
        support > adc_same,
        "support {} should outscore an ADC {} with the same low-farm line",
        support.label(),
        adc_same.label()
    );
}

#[test]
fn better_stats_never_lower_the_grade() {
    let ok = evaluate(&GradeInput {
        role: "TOP",
        kda: r(25, 10),
        kp: 45,
        cs_per_min: r(6, 1),
        damage_share: 18,
        vision_per_min: r(5, 10),
    });
    let great = evaluate(&GradeInput {
        role: "TOP",
        kda: r(6, 1),
        kp: 65,
        cs_per_min: r(85, 10),
        damage_share: 30,
        vision_per_min: r(1, 1),
    });
    assert!(great >= ok);
    assert!(great >= Grade::S);
}

#[test]
fn aram_uses_generic_profile() {
    let g = evaluate(&GradeInput {
        role: "",
        kda: r(5, 1),
        kp: 62,
        cs_per_min: r(65, 10),
        damage_share: 26,
        vision_per_min: r(6, 10),
    });
    assert!(g >= Grade::A);
}

#[test]
fn grade_labels_and_order() {
    assert_eq!(Grade::SPlus.label(), "S+");
    assert_eq!(Grade::S.label(), "S");
    assert_eq!(Grade::A.label(), "A");
    assert_eq!(Grade::B.label(), "B");
    assert_eq!(Grade::C.label(), "C");
    assert_eq!(Grade::D.label(), "D");
    assert!(Grade::D < Grade::C && Grade::C < Grade::B && Grade::B < Grade::A);
    assert!(Grade::A < Grade::S && Grade::S < Grade::SPlus);
}

#[test]
fn baseline_of_every_role_is_s() {
    // Each role's own baselines (KDA, KP %, CS/min, damage %, vision/min).
    let roles = [
        ("TOP", r(4, 1), 55, r(7, 1), 22, r(8, 10)),
        ("JUNGLE", r(4, 1), 65, r(55, 10), 18, r(12, 10)),
        ("MIDDLE", r(45, 10), 60, r(75, 10), 27, r(8, 10)),
        ("BOTTOM", r(45, 10), 58, r(8, 1), 28, r(7, 10)),
        ("UTILITY", r(35, 10), 68, r(15, 10), 12, r(18, 10)),
        ("", r(4, 1), 60, r(6, 1), 25, r(6, 10)),
    ];
    for (role, kda, kp, cs, dmg, vision) in roles {
        let g = evaluate(&GradeInput {
            role,
            kda,
            kp,
            cs_per_min: cs,
            damage_share: dmg,
            vision_per_min: vision,
        });
        assert_eq!(g, Grade::S, "role {role}");
    }
}

#[test]
fn each_stat_raised_keeps_or_raises_grade() {
    let base = GradeInput {
        role: "JUNGLE",
        kda: r(2, 1),
        kp: 40,
        cs_per_min: r(4, 1),
        damage_share: 12,
        vision_per_min: r(6, 10),
    };
    let g0 = evaluate(&base);
    let better = [
        GradeInput { kda: r(7, 1), ..base },
        GradeInput { kp: 80, ..base },
        GradeInput { cs_per_min: r(8, 1), ..base },
        GradeInput { damage_share: 30, ..base },
        GradeInput { vision_per_min: r(2, 1), ..base },
    ];
    for b in better.iter() {
        assert!(evaluate(b) >= g0);
    }
    // A negative-denominator ratio reads as its value (-4 / -2 = 2).
    assert_eq!(evaluate(&GradeInput { kda: r(-4, -2), ..base }), g0);
}
