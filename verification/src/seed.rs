//! The built-in list of known sanctioned sources, and the bootstrap that
//! loads it into a chat's restriction set when the bot joins.

use vstd::prelude::*;
use crate::replies::Reply;
use crate::store::{add_pair, idents_model, RestrictedIdentity, RestrictionStore};

verus! {

/// The built-in sources, in load order. The list itself repeats two entries;
/// set semantics keeps each only once.
pub open spec fn predefined_model() -> Seq<(i64, Seq<char>)> {
    seq![
        (-1001263953596i64, "grey_zone"@),
        (-1001085671411i64, "rlz_the_kraken"@),
        (-1001144404150i64, "warjournaltg"@),
        (-1001394050290i64, "bbbreaking"@),
        (-1001074354585i64, "milinfolive"@),
        (-1001459051914i64, "Ugolok_Sitha"@),
        (-1001515682915i64, "informator_life"@),
        (-1001108403053i64, "chesnokmedia"@),
        (-1001510269826i64, "ghost_of_novorossia"@),
        (-1001441564230i64, "notes_veterans"@),
        (-1001162306948i64, "diplomatia"@),
        (-1001658927353i64, "bulbe_de_trones"@),
        (-1001324060080i64, "olegtsarov"@),
        (-1001463486789i64, "akimapache"@),
        (-1001437814721i64, "zola_of_renovation"@),
        (-1001495313358i64, "Hard_Blog_Line"@),
        (-1001659445882i64, "ice_inii"@),
        (-1001144180066i64, "swodki"@),
        (-1001111348665i64, "infantmilitario"@),
        (-1001036362176i64, "rt_russian"@),
        (-1001486063104i64, "gazetaru"@),
        (-1001099860397i64, "rbc_news"@),
        (-1001075565753i64, "vedomosti"@),
        (-1001050820672i64, "tass_agency"@),
        (-1001126629353i64, "kremlinprachka"@),
        (-1001355540894i64, "RVvoenkor"@),
        (-1001099737840i64, "rusvesnasu"@),
        (-1001135021433i64, "wargonzo"@),
        (-1001293450423i64, "oldminerkomi"@),
        (-1001164620271i64, "julia_chicherina"@),
        (-1001254516102i64, "nezhurka"@),
        (-1001331641097i64, "donbassr"@),
        (-1001355540894i64, "RVvoenkor"@),
        (-1001389031111i64, "radlekukh"@),
        (-1001087900551i64, "egorgalenko"@),
        (-1001123791123i64, "yudenich"@),
        (-1001147203857i64, "Marinaslovo"@),
        (-1001120807475i64, "vladlentatarsky"@),
        (-1001136444638i64, "SonOfMonarchy"@),
        (-1001239133328i64, "MaximYusin"@),
        (-1001205641526i64, "istorijaoruzija"@),
        (-1001321128351i64, "Govorit_Topaz"@),
        (-1001101806611i64, "boris_rozhin"@),
        (-1001078100205i64, "go338"@),
        (-1001457644020i64, "omonmoscow"@),
        (-1001319370046i64, "wingsofwar"@),
        (-1001362388271i64, "chvkmedia"@),
        (-1001185457530i64, "hackberegini"@),
        (-1001279747448i64, "mig41"@),
        (-1001794711668i64, "pezdicide"@),
        (-1001012103617i64, "SergeyKolyasnikov"@),
        (-1001199117533i64, "MedvedevVesti"@),
        (-1001246399946i64, "SIL0VIKI"@),
        (-1001382288937i64, "balkanossiper"@),
        (-1001577023152i64, "pl_syrenka"@),
        (-1001376818144i64, "brussinf"@),
        (-1001263152428i64, "lady_north"@),
        (-1001339203072i64, "sex_drugs_kahlo"@),
        (-1001297608614i64, "usaperiodical"@),
        (-1001171552896i64, "russ_orientalist"@),
        (-1001120807475i64, "vladlentatarsky"@),
        (-1001210987817i64, "neoficialniybezsonov"@),
        (-1001326223284i64, "rybar"@),
    ]
}

/// The built-in sources as identities, in the same order.
#[verifier::rlimit(50)]
pub fn predefined_sources() -> (r: Vec<RestrictedIdentity>)
    ensures
        idents_model(r@) == predefined_model(),
{
    let mut v: Vec<RestrictedIdentity> = Vec::new();
    v.push(RestrictedIdentity { source_id: -1001263953596, login: "grey_zone".to_owned() });
    v.push(RestrictedIdentity { source_id: -1001085671411, login: "rlz_the_kraken".to_owned() });
    v.push(RestrictedIdentity { source_id: -1001144404150, login: "warjournaltg".to_owned() });
    v.push(RestrictedIdentity { source_id: -1001394050290, login: "bbbreaking".to_owned() });
    v.push(RestrictedIdentity { source_id: -1001074354585, login: "milinfolive".to_owned() });
    v.push(RestrictedIdentity { source_id: -1001459051914, login: "Ugolok_Sitha".to_owned() });
    v.push(RestrictedIdentity { source_id: -1001515682915, login: "informator_life".to_owned() });
    v.push(RestrictedIdentity { source_id: -1001108403053, login: "chesnokmedia".to_owned() });
    v.push(
        RestrictedIdentity { source_id: -1001510269826, login: "ghost_of_novorossia".to_owned() },
    );
    v.push(RestrictedIdentity { source_id: -1001441564230, login: "notes_veterans".to_owned() });
    v.push(RestrictedIdentity { source_id: -1001162306948, login: "diplomatia".to_owned() });
    v.push(RestrictedIdentity { source_id: -1001658927353, login: "bulbe_de_trones".to_owned() });
    v.push(RestrictedIdentity { source_id: -1001324060080, login: "olegtsarov".to_owned() });
    v.push(RestrictedIdentity { source_id: -1001463486789, login: "akimapache".to_owned() });
    v.push(
        RestrictedIdentity { source_id: -1001437814721, login: "zola_of_renovation".to_owned() },
    );
    v.push(RestrictedIdentity { source_id: -1001495313358, login: "Hard_Blog_Line".to_owned() });
    v.push(RestrictedIdentity { source_id: -1001659445882, login: "ice_inii".to_owned() });
    v.push(RestrictedIdentity { source_id: -1001144180066, login: "swodki".to_owned() });
    v.push(RestrictedIdentity { source_id: -1001111348665, login: "infantmilitario".to_owned() });
    v.push(RestrictedIdentity { source_id: -1001036362176, login: "rt_russian".to_owned() });
    v.push(RestrictedIdentity { source_id: -1001486063104, login: "gazetaru".to_owned() });
    v.push(RestrictedIdentity { source_id: -1001099860397, login: "rbc_news".to_owned() });
    v.push(RestrictedIdentity { source_id: -1001075565753, login: "vedomosti".to_owned() });
    v.push(RestrictedIdentity { source_id: -1001050820672, login: "tass_agency".to_owned() });
    v.push(RestrictedIdentity { source_id: -1001126629353, login: "kremlinprachka".to_owned() });
    v.push(RestrictedIdentity { source_id: -1001355540894, login: "RVvoenkor".to_owned() });
    v.push(RestrictedIdentity { source_id: -1001099737840, login: "rusvesnasu".to_owned() });
    v.push(RestrictedIdentity { source_id: -1001135021433, login: "wargonzo".to_owned() });
    v.push(RestrictedIdentity { source_id: -1001293450423, login: "oldminerkomi".to_owned() });
    v.push(RestrictedIdentity { source_id: -1001164620271, login: "julia_chicherina".to_owned() });
    v.push(RestrictedIdentity { source_id: -1001254516102, login: "nezhurka".to_owned() });
    v.push(RestrictedIdentity { source_id: -1001331641097, login: "donbassr".to_owned() });
    v.push(RestrictedIdentity { source_id: -1001355540894, login: "RVvoenkor".to_owned() });
    v.push(RestrictedIdentity { source_id: -1001389031111, login: "radlekukh".to_owned() });
    v.push(RestrictedIdentity { source_id: -1001087900551, login: "egorgalenko".to_owned() });
    v.push(RestrictedIdentity { source_id: -1001123791123, login: "yudenich".to_owned() });
    v.push(RestrictedIdentity { source_id: -1001147203857, login: "Marinaslovo".to_owned() });
    v.push(RestrictedIdentity { source_id: -1001120807475, login: "vladlentatarsky".to_owned() });
    v.push(RestrictedIdentity { source_id: -1001136444638, login: "SonOfMonarchy".to_owned() });
    v.push(RestrictedIdentity { source_id: -1001239133328, login: "MaximYusin".to_owned() });
    v.push(RestrictedIdentity { source_id: -1001205641526, login: "istorijaoruzija".to_owned() });
    v.push(RestrictedIdentity { source_id: -1001321128351, login: "Govorit_Topaz".to_owned() });
    v.push(RestrictedIdentity { source_id: -1001101806611, login: "boris_rozhin".to_owned() });
    v.push(RestrictedIdentity { source_id: -1001078100205, login: "go338".to_owned() });
    v.push(RestrictedIdentity { source_id: -1001457644020, login: "omonmoscow".to_owned() });
    v.push(RestrictedIdentity { source_id: -1001319370046, login: "wingsofwar".to_owned() });
    v.push(RestrictedIdentity { source_id: -1001362388271, login: "chvkmedia".to_owned() });
    v.push(RestrictedIdentity { source_id: -1001185457530, login: "hackberegini".to_owned() });
    v.push(RestrictedIdentity { source_id: -1001279747448, login: "mig41".to_owned() });
    v.push(RestrictedIdentity { source_id: -1001794711668, login: "pezdicide".to_owned() });
    v.push(
        RestrictedIdentity { source_id: -1001012103617, login: "SergeyKolyasnikov".to_owned() },
    );
    v.push(RestrictedIdentity { source_id: -1001199117533, login: "MedvedevVesti".to_owned() });
    v.push(RestrictedIdentity { source_id: -1001246399946, login: "SIL0VIKI".to_owned() });
    v.push(RestrictedIdentity { source_id: -1001382288937, login: "balkanossiper".to_owned() });
    v.push(RestrictedIdentity { source_id: -1001577023152, login: "pl_syrenka".to_owned() });
    v.push(RestrictedIdentity { source_id: -1001376818144, login: "brussinf".to_owned() });
    v.push(RestrictedIdentity { source_id: -1001263152428, login: "lady_north".to_owned() });
    v.push(RestrictedIdentity { source_id: -1001339203072, login: "sex_drugs_kahlo".to_owned() });
    v.push(RestrictedIdentity { source_id: -1001297608614, login: "usaperiodical".to_owned() });
    v.push(RestrictedIdentity { source_id: -1001171552896, login: "russ_orientalist".to_owned() });
    v.push(RestrictedIdentity { source_id: -1001120807475, login: "vladlentatarsky".to_owned() });
    v.push(
        RestrictedIdentity { source_id: -1001210987817, login: "neoficialniybezsonov".to_owned() },
    );
    v.push(RestrictedIdentity { source_id: -1001326223284, login: "rybar".to_owned() });
    proof {
        assert(idents_model(v@) =~= predefined_model());
    }
    v
}

/// The built-in list folded into a set, one value-based add at a time.
pub open spec fn add_all(s: Seq<(i64, Seq<char>)>, xs: Seq<(i64, Seq<char>)>) -> Seq<
    (i64, Seq<char>),
>
    decreases xs.len(),
{
    if xs.len() == 0 {
        s
    } else {
        add_pair(add_all(s, xs.drop_last()), xs.last().0, xs.last().1)
    }
}

/// Bootstrap for a chat the bot just joined: every built-in source joins the
/// chat's restriction set, in load order, and the load is confirmed.
pub fn seed_restrictions(store: &mut RestrictionStore, chat_id: i64) -> (r: Reply)
    ensures
        final(store).chat_model(chat_id) == add_all(
            old(store).chat_model(chat_id),
            predefined_model(),
        ),
        forall|c: i64|
            c != chat_id ==> #[trigger] final(store).chat_model(c) == old(store).chat_model(c),
        forall|c: i64|
            c != chat_id ==> #[trigger] final(store).has_record(c) == old(store).has_record(c),
        r == Reply::SeedLoaded,
{
    let list = predefined_sources();
    let mut i: usize = 0;
    while i < list.len()
        invariant
            i <= list@.len(),
            idents_model(list@) == predefined_model(),
            store.chat_model(chat_id) == add_all(
                old(store).chat_model(chat_id),
                predefined_model().take(i as int),
            ),
            forall|c: i64|
                c != chat_id ==> #[trigger] store.chat_model(c) == old(store).chat_model(c),
            forall|c: i64|
                c != chat_id ==> #[trigger] store.has_record(c) == old(store).has_record(c),
        decreases list@.len() - i,
    {
        store.add_to_restrictions(chat_id, list[i].source_id, list[i].login.as_str());
        proof {
            let pre = predefined_model();
            assert(pre.take(i + 1).drop_last() =~= pre.take(i as int));
            assert(idents_model(list@)[i as int] == pre[i as int]);
        }
        i += 1;
    }
    proof {
        assert(predefined_model().take(list@.len() as int) =~= predefined_model());
    }
    Reply::SeedLoaded
}

} // verus!
