//! The static car catalogue: product ids and display names, and first-match
//! lookup over it. Read-only reference data; never mutated.

use vstd::prelude::*;

verus! {

/// The view of a catalogue: each row as (product id, name).
pub open spec fn spec_table_view(t: Seq<(u32, &'static str)>) -> Seq<(u32, Seq<char>)> {
    t.map_values(|p: (u32, &'static str)| (p.0, p.1@))
}
pub open spec fn car_rows_0() -> Seq<(u32, Seq<char>)> {
    seq![
        (5547u32, "007's Aston Martin DBS"@),
        (6260u32, "007's Aston Martin Valhalla"@),
        (1286u32, "Aftershock"@),
        (1932u32, "Animus GP"@),
        (625u32, "Armadillo"@),
        (3614u32, "Artemis"@),
        (3594u32, "Artemis G1"@),
        (3622u32, "Artemis GXT"@),
        (21u32, "Backfire"@),
        (2666u32, "Batmobile (1989)"@),
        (803u32, "Batmobile (2016)"@),
        (7415u32, "Batmobile (2022)"@),
        (4780u32, "Battle Bus"@),
    ]
}

pub open spec fn car_rows_1() -> Seq<(u32, Seq<char>)> {
    seq![
        (6244u32, "BMW M240i"@),
        (1623u32, "Bone Shaker"@),
        (22u32, "Breakout"@),
        (1416u32, "Breakout Type-S"@),
        (8524u32, "Bugatti Centodieci"@),
        (9140u32, "Bumblebee"@),
        (1919u32, "Centio"@),
        (4472u32, "Chikara"@),
        (4473u32, "Chikara G1"@),
        (4367u32, "Chikara GXT"@),
        (3031u32, "Cyclone"@),
        (597u32, "DeLorean Time Machine"@),
        (3426u32, "Diestro"@),
    ]
}

pub open spec fn car_rows_2() -> Seq<(u32, Seq<char>)> {
    seq![
        (5361u32, "Dingo"@),
        (403u32, "Dominus"@),
        (1018u32, "Dominus GT"@),
        (4155u32, "Ecto-1"@),
        (8360u32, "Emperor"@),
        (8361u32, "Emperor II"@),
        (1624u32, "Endo"@),
        (1317u32, "Esper"@),
        (2268u32, "Fast & Furious Dodge Charger"@),
        (9053u32, "Fast & Furious Dodge Charger SRT Hellcat"@),
        (2269u32, "Fast & Furious Nissan Skyline"@),
        (5879u32, "Fast & Furious Pontiac Fiero"@),
        (2949u32, "Fast 4WD"@),
    ]
}

pub open spec fn car_rows_3() -> Seq<(u32, Seq<char>)> {
    seq![
        (4284u32, "Fennec"@),
        (7772u32, "Ferrari 296 GTB"@),
        (7815u32, "Ford Bronco Raptor RLE"@),
        (5713u32, "Ford F-150 RLE"@),
        (6939u32, "Ford Mustang Mach E-RLE"@),
        (6836u32, "Ford Mustang Shelby GT350R RLE"@),
        (5265u32, "Formula 1 2021"@),
        (7052u32, "Formula 1 2022"@),
        (2951u32, "Gazella GT"@),
        (26u32, "Gizmo"@),
        (607u32, "Grog"@),
        (3879u32, "Guardian"@),
        (3880u32, "Guardian G1"@),
    ]
}

pub open spec fn car_rows_4() -> Seq<(u32, Seq<char>)> {
    seq![
        (3875u32, "Guardian GXT"@),
        (4906u32, "Harbinger"@),
        (5039u32, "Harbinger GXT"@),
        (723u32, "Hogsticker"@),
        (7947u32, "Honda Civic Type R"@),
        (7948u32, "Honda Civic Type R-LE"@),
        (29u32, "Hotshot"@),
        (1675u32, "Ice Charger"@),
        (1883u32, "Imperator DT5"@),
        (3582u32, "Insidio"@),
        (5951u32, "Jackal"@),
        (2919u32, "Jurassic Jeep Wrangler"@),
        (1856u32, "Jäger 619"@),
    ]
}

pub open spec fn car_rows_5() -> Seq<(u32, Seq<char>)> {
    seq![
        (4014u32, "K.I.T.T."@),
        (3311u32, "Komodo"@),
        (7512u32, "Lamborghini Countach LPI 800-4"@),
        (5964u32, "Lamborghini Huracan STO"@),
        (7532u32, "Maestro"@),
        (7211u32, "Mamba"@),
        (1691u32, "Mantis"@),
        (1172u32, "Marauder"@),
        (2313u32, "Mario NSR"@),
        (1171u32, "Masamune"@),
        (3155u32, "Maverick"@),
        (3156u32, "Maverick G1"@),
        (3157u32, "Maverick GXT"@),
    ]
}

pub open spec fn car_rows_6() -> Seq<(u32, Seq<char>)> {
    seq![
        (3265u32, "McLaren 570S"@),
        (6247u32, "McLaren 765LT"@),
        (30u32, "Merc"@),
        (2950u32, "MR11"@),
        (4318u32, "Mudcat"@),
        (4319u32, "Mudcat G1"@),
        (4320u32, "Mudcat GXT"@),
        (3138u32, "Mystery Item"@),
        (5823u32, "NASCAR Chevrolet Camaro"@),
        (5709u32, "NASCAR Ford Mustang"@),
        (7337u32, "NASCAR Next Gen Chevrolet Camaro"@),
        (7338u32, "NASCAR Next Gen Ford Mustang"@),
        (7341u32, "NASCAR Next Gen Toyota Camry"@),
    ]
}

pub open spec fn car_rows_7() -> Seq<(u32, Seq<char>)> {
    seq![
        (5773u32, "NASCAR Toyota Camry"@),
        (1689u32, "Nemesis"@),
        (6243u32, "Nexus"@),
        (6489u32, "Nexus SC"@),
        (3451u32, "Nimbus"@),
        (9084u32, "Nissan Silvia"@),
        (9085u32, "Nissan Silvia RLE"@),
        (7593u32, "Nissan Z Performance"@),
        (7336u32, "Nomad"@),
        (7477u32, "Nomad GXT"@),
        (23u32, "Octane"@),
        (1568u32, "Otane ZSR"@),
        (5020u32, "Outlaw"@),
    ]
}

pub open spec fn car_rows_8() -> Seq<(u32, Seq<char>)> {
    seq![
        (5837u32, "Outlaw GXT"@),
        (24u32, "Pladin"@),
        (4781u32, "Peregrine TT"@),
        (9088u32, "Porsche 911 Turbo"@),
        (9089u32, "Porsche 911 Turbo RLE"@),
        (1475u32, "Proteus"@),
        (4782u32, "Psyclops"@),
        (5470u32, "R3MX"@),
        (5488u32, "R3MX GXT"@),
        (7651u32, "Redline"@),
        (600u32, "Ripper"@),
        (25u32, "Road Hog"@),
        (1300u32, "Road Hog XL"@),
    ]
}

pub open spec fn car_rows_9() -> Seq<(u32, Seq<char>)> {
    seq![
        (4861u32, "Ronin"@),
        (4864u32, "Ronin G1"@),
        (4745u32, "Ronin GXT"@),
        (1894u32, "Samurai"@),
        (2298u32, "Samus's Gunship"@),
        (404u32, "Scarab"@),
        (4268u32, "Sentinel"@),
        (27u32, "Sweet Tooth"@),
        (402u32, "Takumi"@),
        (1295u32, "Takumi RX-T"@),
        (2665u32, "The Dark Knight's Tumbler"@),
        (1478u32, "Triton"@),
        (1603u32, "Twin Mill III"@),
    ]
}

pub open spec fn car_rows_10() -> Seq<(u32, Seq<char>)> {
    seq![
        (2853u32, "Twinzer"@),
        (3702u32, "Tygris"@),
        (5858u32, "Tyranno"@),
        (5979u32, "Tyranno GXT"@),
        (31u32, "Venom"@),
        (1533u32, "Vulcan"@),
        (8806u32, "Volkswagen Golf GTI"@),
        (8807u32, "Volkswagen Golf GTI RLE"@),
        (2070u32, "Werewolf"@),
        (7696u32, "Whiplash"@),
        (28u32, "X-Devil"@),
        (1159u32, "X-Devil Mk2"@),
        (523u32, "Zippy"@),
    ]
}

/// The full catalogue, row by row.
pub open spec fn spec_car_table() -> Seq<(u32, Seq<char>)> {
    car_rows_0() + car_rows_1() + car_rows_2() + car_rows_3() + car_rows_4() + car_rows_5() + car_rows_6() + car_rows_7() + car_rows_8() + car_rows_9() + car_rows_10()
}

fn push_car_rows_0(t: &mut Vec<(u32, &'static str)>)
    ensures
        spec_table_view(final(t)@) =~= spec_table_view(old(t)@) + car_rows_0(),
{
    t.push((5547u32, "007's Aston Martin DBS"));
    t.push((6260u32, "007's Aston Martin Valhalla"));
    t.push((1286u32, "Aftershock"));
    t.push((1932u32, "Animus GP"));
    t.push((625u32, "Armadillo"));
    t.push((3614u32, "Artemis"));
    t.push((3594u32, "Artemis G1"));
    t.push((3622u32, "Artemis GXT"));
    t.push((21u32, "Backfire"));
    t.push((2666u32, "Batmobile (1989)"));
    t.push((803u32, "Batmobile (2016)"));
    t.push((7415u32, "Batmobile (2022)"));
    t.push((4780u32, "Battle Bus"));
    proof {
        let v = spec_table_view(t@);
        let w = spec_table_view(old(t)@) + car_rows_0();
        assert(v.len() == w.len());
        assert forall|i: int| 0 <= i < v.len() implies v[i] == w[i] by {
            assert(v[i] == (t@[i].0, t@[i].1@));
            if i < old(t)@.len() {
                assert(t@[i] == old(t)@[i]);
                assert(w[i] == (old(t)@[i].0, old(t)@[i].1@));
            }
        }
    }
}

fn push_car_rows_1(t: &mut Vec<(u32, &'static str)>)
    ensures
        spec_table_view(final(t)@) =~= spec_table_view(old(t)@) + car_rows_1(),
{
    t.push((6244u32, "BMW M240i"));
    t.push((1623u32, "Bone Shaker"));
    t.push((22u32, "Breakout"));
    t.push((1416u32, "Breakout Type-S"));
    t.push((8524u32, "Bugatti Centodieci"));
    t.push((9140u32, "Bumblebee"));
    t.push((1919u32, "Centio"));
    t.push((4472u32, "Chikara"));
    t.push((4473u32, "Chikara G1"));
    t.push((4367u32, "Chikara GXT"));
    t.push((3031u32, "Cyclone"));
    t.push((597u32, "DeLorean Time Machine"));
    t.push((3426u32, "Diestro"));
    proof {
        let v = spec_table_view(t@);
        let w = spec_table_view(old(t)@) + car_rows_1();
        assert(v.len() == w.len());
        assert forall|i: int| 0 <= i < v.len() implies v[i] == w[i] by {
            assert(v[i] == (t@[i].0, t@[i].1@));
            if i < old(t)@.len() {
                assert(t@[i] == old(t)@[i]);
                assert(w[i] == (old(t)@[i].0, old(t)@[i].1@));
            }
        }
    }
}

fn push_car_rows_2(t: &mut Vec<(u32, &'static str)>)
    ensures
        spec_table_view(final(t)@) =~= spec_table_view(old(t)@) + car_rows_2(),
{
    t.push((5361u32, "Dingo"));
    t.push((403u32, "Dominus"));
    t.push((1018u32, "Dominus GT"));
    t.push((4155u32, "Ecto-1"));
    t.push((8360u32, "Emperor"));
    t.push((8361u32, "Emperor II"));
    t.push((1624u32, "Endo"));
    t.push((1317u32, "Esper"));
    t.push((2268u32, "Fast & Furious Dodge Charger"));
    t.push((9053u32, "Fast & Furious Dodge Charger SRT Hellcat"));
    t.push((2269u32, "Fast & Furious Nissan Skyline"));
    t.push((5879u32, "Fast & Furious Pontiac Fiero"));
    t.push((2949u32, "Fast 4WD"));
    proof {
        let v = spec_table_view(t@);
        let w = spec_table_view(old(t)@) + car_rows_2();
        assert(v.len() == w.len());
        assert forall|i: int| 0 <= i < v.len() implies v[i] == w[i] by {
            assert(v[i] == (t@[i].0, t@[i].1@));
            if i < old(t)@.len() {
                assert(t@[i] == old(t)@[i]);
                assert(w[i] == (old(t)@[i].0, old(t)@[i].1@));
            }
        }
    }
}

fn push_car_rows_3(t: &mut Vec<(u32, &'static str)>)
    ensures
        spec_table_view(final(t)@) =~= spec_table_view(old(t)@) + car_rows_3(),
{
    t.push((4284u32, "Fennec"));
    t.push((7772u32, "Ferrari 296 GTB"));
    t.push((7815u32, "Ford Bronco Raptor RLE"));
    t.push((5713u32, "Ford F-150 RLE"));
    t.push((6939u32, "Ford Mustang Mach E-RLE"));
    t.push((6836u32, "Ford Mustang Shelby GT350R RLE"));
    t.push((5265u32, "Formula 1 2021"));
    t.push((7052u32, "Formula 1 2022"));
    t.push((2951u32, "Gazella GT"));
    t.push((26u32, "Gizmo"));
    t.push((607u32, "Grog"));
    t.push((3879u32, "Guardian"));
    t.push((3880u32, "Guardian G1"));
    proof {
        let v = spec_table_view(t@);
        let w = spec_table_view(old(t)@) + car_rows_3();
        assert(v.len() == w.len());
        assert forall|i: int| 0 <= i < v.len() implies v[i] == w[i] by {
            assert(v[i] == (t@[i].0, t@[i].1@));
            if i < old(t)@.len() {
                assert(t@[i] == old(t)@[i]);
                assert(w[i] == (old(t)@[i].0, old(t)@[i].1@));
            }
        }
    }
}

fn push_car_rows_4(t: &mut Vec<(u32, &'static str)>)
    ensures
        spec_table_view(final(t)@) =~= spec_table_view(old(t)@) + car_rows_4(),
{
    t.push((3875u32, "Guardian GXT"));
    t.push((4906u32, "Harbinger"));
    t.push((5039u32, "Harbinger GXT"));
    t.push((723u32, "Hogsticker"));
    t.push((7947u32, "Honda Civic Type R"));
    t.push((7948u32, "Honda Civic Type R-LE"));
    t.push((29u32, "Hotshot"));
    t.push((1675u32, "Ice Charger"));
    t.push((1883u32, "Imperator DT5"));
    t.push((3582u32, "Insidio"));
    t.push((5951u32, "Jackal"));
    t.push((2919u32, "Jurassic Jeep Wrangler"));
    t.push((1856u32, "Jäger 619"));
    proof {
        let v = spec_table_view(t@);
        let w = spec_table_view(old(t)@) + car_rows_4();
        assert(v.len() == w.len());
        assert forall|i: int| 0 <= i < v.len() implies v[i] == w[i] by {
            assert(v[i] == (t@[i].0, t@[i].1@));
            if i < old(t)@.len() {
                assert(t@[i] == old(t)@[i]);
                assert(w[i] == (old(t)@[i].0, old(t)@[i].1@));
            }
        }
    }
}

fn push_car_rows_5(t: &mut Vec<(u32, &'static str)>)
    ensures
        spec_table_view(final(t)@) =~= spec_table_view(old(t)@) + car_rows_5(),
{
    t.push((4014u32, "K.I.T.T."));
    t.push((3311u32, "Komodo"));
    t.push((7512u32, "Lamborghini Countach LPI 800-4"));
    t.push((5964u32, "Lamborghini Huracan STO"));
    t.push((7532u32, "Maestro"));
    t.push((7211u32, "Mamba"));
    t.push((1691u32, "Mantis"));
    t.push((1172u32, "Marauder"));
    t.push((2313u32, "Mario NSR"));
    t.push((1171u32, "Masamune"));
    t.push((3155u32, "Maverick"));
    t.push((3156u32, "Maverick G1"));
    t.push((3157u32, "Maverick GXT"));
    proof {
        let v = spec_table_view(t@);
        let w = spec_table_view(old(t)@) + car_rows_5();
        assert(v.len() == w.len());
        assert forall|i: int| 0 <= i < v.len() implies v[i] == w[i] by {
            assert(v[i] == (t@[i].0, t@[i].1@));
            if i < old(t)@.len() {
                assert(t@[i] == old(t)@[i]);
                assert(w[i] == (old(t)@[i].0, old(t)@[i].1@));
            }
        }
    }
}

fn push_car_rows_6(t: &mut Vec<(u32, &'static str)>)
    ensures
        spec_table_view(final(t)@) =~= spec_table_view(old(t)@) + car_rows_6(),
{
    t.push((3265u32, "McLaren 570S"));
    t.push((6247u32, "McLaren 765LT"));
    t.push((30u32, "Merc"));
    t.push((2950u32, "MR11"));
    t.push((4318u32, "Mudcat"));
    t.push((4319u32, "Mudcat G1"));
    t.push((4320u32, "Mudcat GXT"));
    t.push((3138u32, "Mystery Item"));
    t.push((5823u32, "NASCAR Chevrolet Camaro"));
    t.push((5709u32, "NASCAR Ford Mustang"));
    t.push((7337u32, "NASCAR Next Gen Chevrolet Camaro"));
    t.push((7338u32, "NASCAR Next Gen Ford Mustang"));
    t.push((7341u32, "NASCAR Next Gen Toyota Camry"));
    proof {
        let v = spec_table_view(t@);
        let w = spec_table_view(old(t)@) + car_rows_6();
        assert(v.len() == w.len());
        assert forall|i: int| 0 <= i < v.len() implies v[i] == w[i] by {
            assert(v[i] == (t@[i].0, t@[i].1@));
            if i < old(t)@.len() {
                assert(t@[i] == old(t)@[i]);
                assert(w[i] == (old(t)@[i].0, old(t)@[i].1@));
            }
        }
    }
}

fn push_car_rows_7(t: &mut Vec<(u32, &'static str)>)
    ensures
        spec_table_view(final(t)@) =~= spec_table_view(old(t)@) + car_rows_7(),
{
    t.push((5773u32, "NASCAR Toyota Camry"));
    t.push((1689u32, "Nemesis"));
    t.push((6243u32, "Nexus"));
    t.push((6489u32, "Nexus SC"));
    t.push((3451u32, "Nimbus"));
    t.push((9084u32, "Nissan Silvia"));
    t.push((9085u32, "Nissan Silvia RLE"));
    t.push((7593u32, "Nissan Z Performance"));
    t.push((7336u32, "Nomad"));
    t.push((7477u32, "Nomad GXT"));
    t.push((23u32, "Octane"));
    t.push((1568u32, "Otane ZSR"));
    t.push((5020u32, "Outlaw"));
    proof {
        let v = spec_table_view(t@);
        let w = spec_table_view(old(t)@) + car_rows_7();
        assert(v.len() == w.len());
        assert forall|i: int| 0 <= i < v.len() implies v[i] == w[i] by {
            assert(v[i] == (t@[i].0, t@[i].1@));
            if i < old(t)@.len() {
                assert(t@[i] == old(t)@[i]);
                assert(w[i] == (old(t)@[i].0, old(t)@[i].1@));
            }
        }
    }
}

fn push_car_rows_8(t: &mut Vec<(u32, &'static str)>)
    ensures
        spec_table_view(final(t)@) =~= spec_table_view(old(t)@) + car_rows_8(),
{
    t.push((5837u32, "Outlaw GXT"));
    t.push((24u32, "Pladin"));
    t.push((4781u32, "Peregrine TT"));
    t.push((9088u32, "Porsche 911 Turbo"));
    t.push((9089u32, "Porsche 911 Turbo RLE"));
    t.push((1475u32, "Proteus"));
    t.push((4782u32, "Psyclops"));
    t.push((5470u32, "R3MX"));
    t.push((5488u32, "R3MX GXT"));
    t.push((7651u32, "Redline"));
    t.push((600u32, "Ripper"));
    t.push((25u32, "Road Hog"));
    t.push((1300u32, "Road Hog XL"));
    proof {
        let v = spec_table_view(t@);
        let w = spec_table_view(old(t)@) + car_rows_8();
        assert(v.len() == w.len());
        assert forall|i: int| 0 <= i < v.len() implies v[i] == w[i] by {
            assert(v[i] == (t@[i].0, t@[i].1@));
            if i < old(t)@.len() {
                assert(t@[i] == old(t)@[i]);
                assert(w[i] == (old(t)@[i].0, old(t)@[i].1@));
            }
        }
    }
}

fn push_car_rows_9(t: &mut Vec<(u32, &'static str)>)
    ensures
        spec_table_view(final(t)@) =~= spec_table_view(old(t)@) + car_rows_9(),
{
    t.push((4861u32, "Ronin"));
    t.push((4864u32, "Ronin G1"));
    t.push((4745u32, "Ronin GXT"));
    t.push((1894u32, "Samurai"));
    t.push((2298u32, "Samus's Gunship"));
    t.push((404u32, "Scarab"));
    t.push((4268u32, "Sentinel"));
    t.push((27u32, "Sweet Tooth"));
    t.push((402u32, "Takumi"));
    t.push((1295u32, "Takumi RX-T"));
    t.push((2665u32, "The Dark Knight's Tumbler"));
    t.push((1478u32, "Triton"));
    t.push((1603u32, "Twin Mill III"));
    proof {
        let v = spec_table_view(t@);
        let w = spec_table_view(old(t)@) + car_rows_9();
        assert(v.len() == w.len());
        assert forall|i: int| 0 <= i < v.len() implies v[i] == w[i] by {
            assert(v[i] == (t@[i].0, t@[i].1@));
            if i < old(t)@.len() {
                assert(t@[i] == old(t)@[i]);
                assert(w[i] == (old(t)@[i].0, old(t)@[i].1@));
            }
        }
    }
}

fn push_car_rows_10(t: &mut Vec<(u32, &'static str)>)
    ensures
        spec_table_view(final(t)@) =~= spec_table_view(old(t)@) + car_rows_10(),
{
    t.push((2853u32, "Twinzer"));
    t.push((3702u32, "Tygris"));
    t.push((5858u32, "Tyranno"));
    t.push((5979u32, "Tyranno GXT"));
    t.push((31u32, "Venom"));
    t.push((1533u32, "Vulcan"));
    t.push((8806u32, "Volkswagen Golf GTI"));
    t.push((8807u32, "Volkswagen Golf GTI RLE"));
    t.push((2070u32, "Werewolf"));
    t.push((7696u32, "Whiplash"));
    t.push((28u32, "X-Devil"));
    t.push((1159u32, "X-Devil Mk2"));
    t.push((523u32, "Zippy"));
    proof {
        let v = spec_table_view(t@);
        let w = spec_table_view(old(t)@) + car_rows_10();
        assert(v.len() == w.len());
        assert forall|i: int| 0 <= i < v.len() implies v[i] == w[i] by {
            assert(v[i] == (t@[i].0, t@[i].1@));
            if i < old(t)@.len() {
                assert(t@[i] == old(t)@[i]);
                assert(w[i] == (old(t)@[i].0, old(t)@[i].1@));
            }
        }
    }
}

/// The catalogue of car product ids and car names.
pub fn get_car_map() -> (r: Vec<(u32, &'static str)>)
    ensures
        spec_table_view(r@) == spec_car_table(),
{
    let mut t: Vec<(u32, &'static str)> = Vec::new();
    proof {
        assert(spec_table_view(t@) =~= Seq::<(u32, Seq<char>)>::empty());
    }
    push_car_rows_0(&mut t);
    push_car_rows_1(&mut t);
    push_car_rows_2(&mut t);
    push_car_rows_3(&mut t);
    push_car_rows_4(&mut t);
    push_car_rows_5(&mut t);
    push_car_rows_6(&mut t);
    push_car_rows_7(&mut t);
    push_car_rows_8(&mut t);
    push_car_rows_9(&mut t);
    push_car_rows_10(&mut t);
    proof {
        assert(spec_table_view(t@) =~= spec_car_table());
    }
    t
}

/// First-match lookup of a product id in a catalogue.
pub open spec fn spec_car_lookup(table: Seq<(u32, Seq<char>)>, id: u32) -> Option<Seq<char>>
    decreases table.len(),
{
    if table.len() == 0 {
        None
    } else if table[0].0 == id {
        Some(table[0].1)
    } else {
        spec_car_lookup(table.drop_first(), id)
    }
}

/// The display name of a car body id: its catalogue entry, or "Unknown" for
/// an id the catalogue does not carry.
pub open spec fn spec_car_name(id: u32) -> Seq<char> {
    match spec_car_lookup(spec_car_table(), id) {
        Some(n) => n,
        None => "Unknown"@,
    }
}

/// Look a body id up in a catalogue; yields the name of the first matching
/// row, or "Unknown" when no row matches.
pub fn car_name_of(table: &Vec<(u32, &'static str)>, id: u32) -> (r: &'static str)
    ensures
        r@ == match spec_car_lookup(spec_table_view(table@), id) {
            Some(n) => n,
            None => "Unknown"@,
        },
{
    let n = table.len();
    let mut i: usize = 0;
    proof {
        assert(spec_table_view(table@).skip(0) =~= spec_table_view(table@));
    }
    while i < n
        invariant
            i <= n,
            n == table@.len(),
            spec_car_lookup(spec_table_view(table@), id) == spec_car_lookup(
                spec_table_view(table@).skip(i as int),
                id,
            ),
        decreases n - i,
    {
        proof {
            assert(spec_table_view(table@).skip(i as int)[0] == spec_table_view(table@)[i as int]);
            assert(spec_table_view(table@).skip(i as int).drop_first() =~= spec_table_view(
                table@,
            ).skip(i as int + 1));
        }
        if table[i].0 == id {
            return table[i].1;
        }
        i = i + 1;
    }
    proof {
        assert(spec_table_view(table@).skip(n as int) =~= Seq::<(u32, Seq<char>)>::empty());
    }
    "Unknown"
}

} // verus!
