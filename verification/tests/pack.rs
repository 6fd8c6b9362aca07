use post_push_party::pack::{odds, upgrade_on_draw, PackItem, PackTemplate, Rarity, RarityUpgrader, RngUpgrader};

struct MockUpgrader<'a> {
    will_upgrade: &'a [Rarity],
}

impl<'a> MockUpgrader<'a> {
    fn new(will_upgrade: &'a [Rarity]) -> Self {
        Self { will_upgrade }
    }
}

impl<'a> RarityUpgrader for MockUpgrader<'a> {
    fn should_upgrade(&mut self, rarity: &Rarity) -> bool {
        self.will_upgrade.contains(rarity)
    }
}

#[test]
fn no_upgrades_to_template() {
    let template = PackTemplate(&[Rarity::Common, Rarity::Rare, Rarity::Epic, Rarity::Legendary]);

    let mut upgrader = MockUpgrader::new(&[]);

    let upgraded = template.upgrade(&mut upgrader);

    assert_eq!(upgraded, &[Rarity::Common, Rarity::Rare, Rarity::Epic, Rarity::Legendary,]);
}

#[test]
fn test_upgrade_only_rares() {
    let template = PackTemplate(&[Rarity::Common, Rarity::Rare, Rarity::Epic, Rarity::Legendary]);

    let mut upgrader = MockUpgrader::new(&[Rarity::Rare]);

    let upgraded = template.upgrade(&mut upgrader);

    assert_eq!(&upgraded, &[Rarity::Common, Rarity::Epic, Rarity::Epic, Rarity::Legendary,]);
}

#[test]
fn test_full_upgrade() {
    let template = PackTemplate(&[Rarity::Common, Rarity::Rare, Rarity::Epic, Rarity::Legendary]);

    let mut upgrader =
        MockUpgrader::new(&[Rarity::Common, Rarity::Rare, Rarity::Epic, Rarity::Legendary]);

    let upgraded = template.upgrade(&mut upgrader);

    assert_eq!(
        upgraded,
        &[Rarity::Legendary, Rarity::Legendary, Rarity::Legendary, Rarity::Legendary,]
    );
}

/// answers recorded in the order they are asked
struct Recorder {
    asked: Vec<Rarity>,
    yes_to: Vec<Rarity>,
}

impl RarityUpgrader for Recorder {
    fn should_upgrade(&mut self, rarity: &Rarity) -> bool {
        self.asked.push(*rarity);
        self.yes_to.contains(rarity)
    }
}

#[test]
fn upgrades_follow_the_answers() {
    let template = PackTemplate(&[Rarity::Common, Rarity::Rare]);
    let answers = vec![vec![true, true, false], vec![false]];
    assert_eq!(template.upgrade_with(&answers), vec![Rarity::Epic, Rarity::Rare]);
    // answers past the first no, or past legendary, are not used
    let answers = vec![vec![false, true], vec![true, true, true, true]];
    assert_eq!(template.upgrade_with(&answers), vec![Rarity::Common, Rarity::Legendary]);
}

#[test]
fn the_upgrader_is_asked_about_each_step() {
    let template = PackTemplate(&[Rarity::Common, Rarity::Epic]);
    let mut rec = Recorder { asked: vec![], yes_to: vec![Rarity::Common, Rarity::Epic, Rarity::Legendary] };
    let answers = template.ask(&mut rec);
    assert_eq!(answers, vec![vec![true, false], vec![true, true]]);
    assert_eq!(rec.asked, vec![Rarity::Common, Rarity::Rare, Rarity::Epic, Rarity::Legendary]);
    assert_eq!(template.upgrade_with(&answers), vec![Rarity::Rare, Rarity::Legendary]);
}

#[test]
fn point_bundles_by_rarity() {
    let points: Vec<u64> = [Rarity::Common, Rarity::Rare, Rarity::Epic, Rarity::Legendary]
        .iter()
        .map(|r| match PackItem::point_bundle(*r) {
            PackItem::PointBundle { points, rarity } => {
                assert_eq!(rarity, *r);
                points
            }
            PackItem::PaletteUnlock { .. } => panic!("not a bundle"),
        })
        .collect();
    assert_eq!(points, vec![25, 100, 400, 1600]);

    let mut party_points = 10;
    PackItem::point_bundle(Rarity::Epic).apply_points(&mut party_points);
    assert_eq!(party_points, 410);
    let palette = PackItem::PaletteUnlock { party_id: "fireworks", palette_id: "aurora", rarity: Rarity::Legendary };
    palette.apply_points(&mut party_points);
    assert_eq!(party_points, 410);
    assert_eq!(palette.rarity(), Rarity::Legendary);
}

#[test]
fn chance_upgrades_never_lower_and_stop_at_legendary() {
    let rank = |r: Rarity| match r {
        Rarity::Common => 0,
        Rarity::Rare => 1,
        Rarity::Epic => 2,
        Rarity::Legendary => 3,
    };
    let template = PackTemplate(&[Rarity::Legendary, Rarity::Common, Rarity::Rare]);
    let mut upgrader = RngUpgrader::new();
    for _ in 0..200 {
        let r = template.upgrade(&mut upgrader);
        assert_eq!(r.len(), 3);
        assert_eq!(r[0], Rarity::Legendary);
        assert!(rank(r[2]) >= 1);
    }
    // one common in ten goes up: over many draws some do, most do not
    let single = PackTemplate(&[Rarity::Common]);
    let ups = (0..2000).filter(|_| single.upgrade(&mut upgrader)[0] != Rarity::Common).count();
    assert!(ups > 0 && ups < 1000);
    // legendary is never upgraded
    assert!(!upgrader.should_upgrade(&Rarity::Legendary));
}

#[test]
fn upgrades_are_decided_by_the_draw() {
    assert_eq!(odds(Rarity::Common), 10);
    assert_eq!(odds(Rarity::Rare), 5);
    assert_eq!(odds(Rarity::Epic), 5);
    assert_eq!(odds(Rarity::Legendary), 1);
    assert!(upgrade_on_draw(Rarity::Common, 0));
    assert!(!upgrade_on_draw(Rarity::Common, 1));
    assert!(!upgrade_on_draw(Rarity::Epic, 4));
    assert!(upgrade_on_draw(Rarity::Epic, 0));
    assert!(!upgrade_on_draw(Rarity::Legendary, 0));
}
