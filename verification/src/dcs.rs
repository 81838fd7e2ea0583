//! DCS codes and the two bytes the radio stores for each: the low eight bits of the
//! octal code number, then `0x80`, plus `0x40` for inverted polarity and the ninth bit.
use vstd::prelude::*;

verus! {

/// A DCS code, named by its octal number; `N` is normal and `I` inverted polarity.
#[derive(Debug, PartialEq, Eq, Structural)]
pub enum Dcs {
    D023N,
    D025N,
    D026N,
    D031N,
    D032N,
    D036N,
    D043N,
    D047N,
    D051N,
    D053N,
    D054N,
    D065N,
    D071N,
    D072N,
    D073N,
    D074N,
    D114N,
    D115N,
    D116N,
    D122N,
    D125N,
    D131N,
    D132N,
    D134N,
    D143N,
    D145N,
    D152N,
    D155N,
    D156N,
    D162N,
    D165N,
    D172N,
    D174N,
    D205N,
    D212N,
    D223N,
    D225N,
    D226N,
    D243N,
    D244N,
    D245N,
    D246N,
    D251N,
    D252N,
    D255N,
    D261N,
    D263N,
    D265N,
    D266N,
    D271N,
    D274N,
    D306N,
    D311N,
    D315N,
    D325N,
    D331N,
    D332N,
    D343N,
    D346N,
    D351N,
    D356N,
    D364N,
    D365N,
    D371N,
    D411N,
    D412N,
    D413N,
    D423N,
    D431N,
    D432N,
    D445N,
    D446N,
    D452N,
    D454N,
    D455N,
    D462N,
    D464N,
    D465N,
    D466N,
    D503N,
    D506N,
    D516N,
    D523N,
    D526N,
    D532N,
    D546N,
    D565N,
    D606N,
    D612N,
    D624N,
    D627N,
    D631N,
    D632N,
    D654N,
    D662N,
    D664N,
    D703N,
    D712N,
    D723N,
    D731N,
    D732N,
    D734N,
    D743N,
    D754N,
    D023I,
    D025I,
    D026I,
    D031I,
    D032I,
    D036I,
    D043I,
    D047I,
    D051I,
    D053I,
    D054I,
    D065I,
    D071I,
    D072I,
    D073I,
    D074I,
    D114I,
    D115I,
    D116I,
    D122I,
    D125I,
    D131I,
    D132I,
    D134I,
    D143I,
    D145I,
    D152I,
    D155I,
    D156I,
    D162I,
    D165I,
    D172I,
    D174I,
    D205I,
    D212I,
    D223I,
    D225I,
    D226I,
    D243I,
    D244I,
    D245I,
    D246I,
    D251I,
    D252I,
    D255I,
    D261I,
    D263I,
    D265I,
    D266I,
    D271I,
    D274I,
    D306I,
    D311I,
    D315I,
    D325I,
    D331I,
    D332I,
    D343I,
    D346I,
    D351I,
    D356I,
    D364I,
    D365I,
    D371I,
    D411I,
    D412I,
    D413I,
    D423I,
    D431I,
    D432I,
    D445I,
    D446I,
    D452I,
    D454I,
    D455I,
    D462I,
    D464I,
    D465I,
    D466I,
    D503I,
    D506I,
    D516I,
    D523I,
    D526I,
    D532I,
    D546I,
    D565I,
    D606I,
    D612I,
    D624I,
    D627I,
    D631I,
    D632I,
    D654I,
    D662I,
    D664I,
    D703I,
    D712I,
    D723I,
    D731I,
    D732I,
    D734I,
    D743I,
    D754I,
}

impl Dcs {
    /// The two bytes the radio stores for this code.
    pub open spec fn code(self) -> (u8, u8) {
        match self {
            Dcs::D023N => (0x13, 0x80),
            Dcs::D025N => (0x15, 0x80),
            Dcs::D026N => (0x16, 0x80),
            Dcs::D031N => (0x19, 0x80),
            Dcs::D032N => (0x1a, 0x80),
            Dcs::D036N => (0x1e, 0x80),
            Dcs::D043N => (0x23, 0x80),
            Dcs::D047N => (0x27, 0x80),
            Dcs::D051N => (0x29, 0x80),
            Dcs::D053N => (0x2b, 0x80),
            Dcs::D054N => (0x2c, 0x80),
            Dcs::D065N => (0x35, 0x80),
            Dcs::D071N => (0x39, 0x80),
            Dcs::D072N => (0x3a, 0x80),
            Dcs::D073N => (0x3b, 0x80),
            Dcs::D074N => (0x3c, 0x80),
            Dcs::D114N => (0x4c, 0x80),
            Dcs::D115N => (0x4d, 0x80),
            Dcs::D116N => (0x4e, 0x80),
            Dcs::D122N => (0x52, 0x80),
            Dcs::D125N => (0x55, 0x80),
            Dcs::D131N => (0x59, 0x80),
            Dcs::D132N => (0x5a, 0x80),
            Dcs::D134N => (0x5c, 0x80),
            Dcs::D143N => (0x63, 0x80),
            Dcs::D145N => (0x65, 0x80),
            Dcs::D152N => (0x6a, 0x80),
            Dcs::D155N => (0x6d, 0x80),
            Dcs::D156N => (0x6e, 0x80),
            Dcs::D162N => (0x72, 0x80),
            Dcs::D165N => (0x75, 0x80),
            Dcs::D172N => (0x7a, 0x80),
            Dcs::D174N => (0x7c, 0x80),
            Dcs::D205N => (0x85, 0x80),
            Dcs::D212N => (0x8a, 0x80),
            Dcs::D223N => (0x93, 0x80),
            Dcs::D225N => (0x95, 0x80),
            Dcs::D226N => (0x96, 0x80),
            Dcs::D243N => (0xa3, 0x80),
            Dcs::D244N => (0xa4, 0x80),
            Dcs::D245N => (0xa5, 0x80),
            Dcs::D246N => (0xa6, 0x80),
            Dcs::D251N => (0xa9, 0x80),
            Dcs::D252N => (0xaa, 0x80),
            Dcs::D255N => (0xad, 0x80),
            Dcs::D261N => (0xb1, 0x80),
            Dcs::D263N => (0xb3, 0x80),
            Dcs::D265N => (0xb5, 0x80),
            Dcs::D266N => (0xb6, 0x80),
            Dcs::D271N => (0xb9, 0x80),
            Dcs::D274N => (0xbc, 0x80),
            Dcs::D306N => (0xc6, 0x80),
            Dcs::D311N => (0xc9, 0x80),
            Dcs::D315N => (0xcd, 0x80),
            Dcs::D325N => (0xd5, 0x80),
            Dcs::D331N => (0xd9, 0x80),
            Dcs::D332N => (0xda, 0x80),
            Dcs::D343N => (0xe3, 0x80),
            Dcs::D346N => (0xe6, 0x80),
            Dcs::D351N => (0xe9, 0x80),
            Dcs::D356N => (0xee, 0x80),
            Dcs::D364N => (0xf4, 0x80),
            Dcs::D365N => (0xf5, 0x80),
            Dcs::D371N => (0xf9, 0x80),
            Dcs::D411N => (0x09, 0x81),
            Dcs::D412N => (0x0a, 0x81),
            Dcs::D413N => (0x0b, 0x81),
            Dcs::D423N => (0x13, 0x81),
            Dcs::D431N => (0x19, 0x81),
            Dcs::D432N => (0x1a, 0x81),
            Dcs::D445N => (0x25, 0x81),
            Dcs::D446N => (0x26, 0x81),
            Dcs::D452N => (0x2a, 0x81),
            Dcs::D454N => (0x2c, 0x81),
            Dcs::D455N => (0x2d, 0x81),
            Dcs::D462N => (0x32, 0x81),
            Dcs::D464N => (0x34, 0x81),
            Dcs::D465N => (0x35, 0x81),
            Dcs::D466N => (0x36, 0x81),
            Dcs::D503N => (0x43, 0x81),
            Dcs::D506N => (0x46, 0x81),
            Dcs::D516N => (0x4e, 0x81),
            Dcs::D523N => (0x53, 0x81),
            Dcs::D526N => (0x56, 0x81),
            Dcs::D532N => (0x5a, 0x81),
            Dcs::D546N => (0x66, 0x81),
            Dcs::D565N => (0x75, 0x81),
            Dcs::D606N => (0x86, 0x81),
            Dcs::D612N => (0x8a, 0x81),
            Dcs::D624N => (0x94, 0x81),
            Dcs::D627N => (0x97, 0x81),
            Dcs::D631N => (0x99, 0x81),
            Dcs::D632N => (0x9a, 0x81),
            Dcs::D654N => (0xac, 0x81),
            Dcs::D662N => (0xb2, 0x81),
            Dcs::D664N => (0xb4, 0x81),
            Dcs::D703N => (0xc3, 0x81),
            Dcs::D712N => (0xca, 0x81),
            Dcs::D723N => (0xd3, 0x81),
            Dcs::D731N => (0xd9, 0x81),
            Dcs::D732N => (0xda, 0x81),
            Dcs::D734N => (0xdc, 0x81),
            Dcs::D743N => (0xe3, 0x81),
            Dcs::D754N => (0xec, 0x81),
            Dcs::D023I => (0x13, 0xc0),
            Dcs::D025I => (0x15, 0xc0),
            Dcs::D026I => (0x16, 0xc0),
            Dcs::D031I => (0x19, 0xc0),
            Dcs::D032I => (0x1a, 0xc0),
            Dcs::D036I => (0x1e, 0xc0),
            Dcs::D043I => (0x23, 0xc0),
            Dcs::D047I => (0x27, 0xc0),
            Dcs::D051I => (0x29, 0xc0),
            Dcs::D053I => (0x2b, 0xc0),
            Dcs::D054I => (0x2c, 0xc0),
            Dcs::D065I => (0x35, 0xc0),
            Dcs::D071I => (0x39, 0xc0),
            Dcs::D072I => (0x3a, 0xc0),
            Dcs::D073I => (0x3b, 0xc0),
            Dcs::D074I => (0x3c, 0xc0),
            Dcs::D114I => (0x4c, 0xc0),
            Dcs::D115I => (0x4d, 0xc0),
            Dcs::D116I => (0x4e, 0xc0),
            Dcs::D122I => (0x52, 0xc0),
            Dcs::D125I => (0x55, 0xc0),
            Dcs::D131I => (0x59, 0xc0),
            Dcs::D132I => (0x5a, 0xc0),
            Dcs::D134I => (0x5c, 0xc0),
            Dcs::D143I => (0x63, 0xc0),
            Dcs::D145I => (0x65, 0xc0),
            Dcs::D152I => (0x6a, 0xc0),
            Dcs::D155I => (0x6d, 0xc0),
            Dcs::D156I => (0x6e, 0xc0),
            Dcs::D162I => (0x72, 0xc0),
            Dcs::D165I => (0x75, 0xc0),
            Dcs::D172I => (0x7a, 0xc0),
            Dcs::D174I => (0x7c, 0xc0),
            Dcs::D205I => (0x85, 0xc0),
            Dcs::D212I => (0x8a, 0xc0),
            Dcs::D223I => (0x93, 0xc0),
            Dcs::D225I => (0x95, 0xc0),
            Dcs::D226I => (0x96, 0xc0),
            Dcs::D243I => (0xa3, 0xc0),
            Dcs::D244I => (0xa4, 0xc0),
            Dcs::D245I => (0xa5, 0xc0),
            Dcs::D246I => (0xa6, 0xc0),
            Dcs::D251I => (0xa9, 0xc0),
            Dcs::D252I => (0xaa, 0xc0),
            Dcs::D255I => (0xad, 0xc0),
            Dcs::D261I => (0xb1, 0xc0),
            Dcs::D263I => (0xb3, 0xc0),
            Dcs::D265I => (0xb5, 0xc0),
            Dcs::D266I => (0xb6, 0xc0),
            Dcs::D271I => (0xb9, 0xc0),
            Dcs::D274I => (0xbc, 0xc0),
            Dcs::D306I => (0xc6, 0xc0),
            Dcs::D311I => (0xc9, 0xc0),
            Dcs::D315I => (0xcd, 0xc0),
            Dcs::D325I => (0xd5, 0xc0),
            Dcs::D331I => (0xd9, 0xc0),
            Dcs::D332I => (0xda, 0xc0),
            Dcs::D343I => (0xe3, 0xc0),
            Dcs::D346I => (0xe6, 0xc0),
            Dcs::D351I => (0xe9, 0xc0),
            Dcs::D356I => (0xee, 0xc0),
            Dcs::D364I => (0xf4, 0xc0),
            Dcs::D365I => (0xf5, 0xc0),
            Dcs::D371I => (0xf9, 0xc0),
            Dcs::D411I => (0x09, 0xc1),
            Dcs::D412I => (0x0a, 0xc1),
            Dcs::D413I => (0x0b, 0xc1),
            Dcs::D423I => (0x13, 0xc1),
            Dcs::D431I => (0x19, 0xc1),
            Dcs::D432I => (0x1a, 0xc1),
            Dcs::D445I => (0x25, 0xc1),
            Dcs::D446I => (0x26, 0xc1),
            Dcs::D452I => (0x2a, 0xc1),
            Dcs::D454I => (0x2c, 0xc1),
            Dcs::D455I => (0x2d, 0xc1),
            Dcs::D462I => (0x32, 0xc1),
            Dcs::D464I => (0x34, 0xc1),
            Dcs::D465I => (0x35, 0xc1),
            Dcs::D466I => (0x36, 0xc1),
            Dcs::D503I => (0x43, 0xc1),
            Dcs::D506I => (0x46, 0xc1),
            Dcs::D516I => (0x4e, 0xc1),
            Dcs::D523I => (0x53, 0xc1),
            Dcs::D526I => (0x56, 0xc1),
            Dcs::D532I => (0x5a, 0xc1),
            Dcs::D546I => (0x66, 0xc1),
            Dcs::D565I => (0x75, 0xc1),
            Dcs::D606I => (0x86, 0xc1),
            Dcs::D612I => (0x8a, 0xc1),
            Dcs::D624I => (0x94, 0xc1),
            Dcs::D627I => (0x97, 0xc1),
            Dcs::D631I => (0x99, 0xc1),
            Dcs::D632I => (0x9a, 0xc1),
            Dcs::D654I => (0xac, 0xc1),
            Dcs::D662I => (0xb2, 0xc1),
            Dcs::D664I => (0xb4, 0xc1),
            Dcs::D703I => (0xc3, 0xc1),
            Dcs::D712I => (0xca, 0xc1),
            Dcs::D723I => (0xd3, 0xc1),
            Dcs::D731I => (0xd9, 0xc1),
            Dcs::D732I => (0xda, 0xc1),
            Dcs::D734I => (0xdc, 0xc1),
            Dcs::D743I => (0xe3, 0xc1),
            Dcs::D754I => (0xec, 0xc1),
        }
    }

    /// The code that two stored bytes name, if any.
    pub open spec fn from_code(first: u8, second: u8) -> Option<Dcs> {
        match (first, second) {
            (0x13u8, 0x80u8) => Some(Dcs::D023N),
            (0x15u8, 0x80u8) => Some(Dcs::D025N),
            (0x16u8, 0x80u8) => Some(Dcs::D026N),
            (0x19u8, 0x80u8) => Some(Dcs::D031N),
            (0x1au8, 0x80u8) => Some(Dcs::D032N),
            (0x1eu8, 0x80u8) => Some(Dcs::D036N),
            (0x23u8, 0x80u8) => Some(Dcs::D043N),
            (0x27u8, 0x80u8) => Some(Dcs::D047N),
            (0x29u8, 0x80u8) => Some(Dcs::D051N),
            (0x2bu8, 0x80u8) => Some(Dcs::D053N),
            (0x2cu8, 0x80u8) => Some(Dcs::D054N),
            (0x35u8, 0x80u8) => Some(Dcs::D065N),
            (0x39u8, 0x80u8) => Some(Dcs::D071N),
            (0x3au8, 0x80u8) => Some(Dcs::D072N),
            (0x3bu8, 0x80u8) => Some(Dcs::D073N),
            (0x3cu8, 0x80u8) => Some(Dcs::D074N),
            (0x4cu8, 0x80u8) => Some(Dcs::D114N),
            (0x4du8, 0x80u8) => Some(Dcs::D115N),
            (0x4eu8, 0x80u8) => Some(Dcs::D116N),
            (0x52u8, 0x80u8) => Some(Dcs::D122N),
            (0x55u8, 0x80u8) => Some(Dcs::D125N),
            (0x59u8, 0x80u8) => Some(Dcs::D131N),
            (0x5au8, 0x80u8) => Some(Dcs::D132N),
            (0x5cu8, 0x80u8) => Some(Dcs::D134N),
            (0x63u8, 0x80u8) => Some(Dcs::D143N),
            (0x65u8, 0x80u8) => Some(Dcs::D145N),
            (0x6au8, 0x80u8) => Some(Dcs::D152N),
            (0x6du8, 0x80u8) => Some(Dcs::D155N),
            (0x6eu8, 0x80u8) => Some(Dcs::D156N),
            (0x72u8, 0x80u8) => Some(Dcs::D162N),
            (0x75u8, 0x80u8) => Some(Dcs::D165N),
            (0x7au8, 0x80u8) => Some(Dcs::D172N),
            (0x7cu8, 0x80u8) => Some(Dcs::D174N),
            (0x85u8, 0x80u8) => Some(Dcs::D205N),
            (0x8au8, 0x80u8) => Some(Dcs::D212N),
            (0x93u8, 0x80u8) => Some(Dcs::D223N),
            (0x95u8, 0x80u8) => Some(Dcs::D225N),
            (0x96u8, 0x80u8) => Some(Dcs::D226N),
            (0xa3u8, 0x80u8) => Some(Dcs::D243N),
            (0xa4u8, 0x80u8) => Some(Dcs::D244N),
            (0xa5u8, 0x80u8) => Some(Dcs::D245N),
            (0xa6u8, 0x80u8) => Some(Dcs::D246N),
            (0xa9u8, 0x80u8) => Some(Dcs::D251N),
            (0xaau8, 0x80u8) => Some(Dcs::D252N),
            (0xadu8, 0x80u8) => Some(Dcs::D255N),
            (0xb1u8, 0x80u8) => Some(Dcs::D261N),
            (0xb3u8, 0x80u8) => Some(Dcs::D263N),
            (0xb5u8, 0x80u8) => Some(Dcs::D265N),
            (0xb6u8, 0x80u8) => Some(Dcs::D266N),
            (0xb9u8, 0x80u8) => Some(Dcs::D271N),
            (0xbcu8, 0x80u8) => Some(Dcs::D274N),
            (0xc6u8, 0x80u8) => Some(Dcs::D306N),
            (0xc9u8, 0x80u8) => Some(Dcs::D311N),
            (0xcdu8, 0x80u8) => Some(Dcs::D315N),
            (0xd5u8, 0x80u8) => Some(Dcs::D325N),
            (0xd9u8, 0x80u8) => Some(Dcs::D331N),
            (0xdau8, 0x80u8) => Some(Dcs::D332N),
            (0xe3u8, 0x80u8) => Some(Dcs::D343N),
            (0xe6u8, 0x80u8) => Some(Dcs::D346N),
            (0xe9u8, 0x80u8) => Some(Dcs::D351N),
            (0xeeu8, 0x80u8) => Some(Dcs::D356N),
            (0xf4u8, 0x80u8) => Some(Dcs::D364N),
            (0xf5u8, 0x80u8) => Some(Dcs::D365N),
            (0xf9u8, 0x80u8) => Some(Dcs::D371N),
            (0x09u8, 0x81u8) => Some(Dcs::D411N),
            (0x0au8, 0x81u8) => Some(Dcs::D412N),
            (0x0bu8, 0x81u8) => Some(Dcs::D413N),
            (0x13u8, 0x81u8) => Some(Dcs::D423N),
            (0x19u8, 0x81u8) => Some(Dcs::D431N),
            (0x1au8, 0x81u8) => Some(Dcs::D432N),
            (0x25u8, 0x81u8) => Some(Dcs::D445N),
            (0x26u8, 0x81u8) => Some(Dcs::D446N),
            (0x2au8, 0x81u8) => Some(Dcs::D452N),
            (0x2cu8, 0x81u8) => Some(Dcs::D454N),
            (0x2du8, 0x81u8) => Some(Dcs::D455N),
            (0x32u8, 0x81u8) => Some(Dcs::D462N),
            (0x34u8, 0x81u8) => Some(Dcs::D464N),
            (0x35u8, 0x81u8) => Some(Dcs::D465N),
            (0x36u8, 0x81u8) => Some(Dcs::D466N),
            (0x43u8, 0x81u8) => Some(Dcs::D503N),
            (0x46u8, 0x81u8) => Some(Dcs::D506N),
            (0x4eu8, 0x81u8) => Some(Dcs::D516N),
            (0x53u8, 0x81u8) => Some(Dcs::D523N),
            (0x56u8, 0x81u8) => Some(Dcs::D526N),
            (0x5au8, 0x81u8) => Some(Dcs::D532N),
            (0x66u8, 0x81u8) => Some(Dcs::D546N),
            (0x75u8, 0x81u8) => Some(Dcs::D565N),
            (0x86u8, 0x81u8) => Some(Dcs::D606N),
            (0x8au8, 0x81u8) => Some(Dcs::D612N),
            (0x94u8, 0x81u8) => Some(Dcs::D624N),
            (0x97u8, 0x81u8) => Some(Dcs::D627N),
            (0x99u8, 0x81u8) => Some(Dcs::D631N),
            (0x9au8, 0x81u8) => Some(Dcs::D632N),
            (0xacu8, 0x81u8) => Some(Dcs::D654N),
            (0xb2u8, 0x81u8) => Some(Dcs::D662N),
            (0xb4u8, 0x81u8) => Some(Dcs::D664N),
            (0xc3u8, 0x81u8) => Some(Dcs::D703N),
            (0xcau8, 0x81u8) => Some(Dcs::D712N),
            (0xd3u8, 0x81u8) => Some(Dcs::D723N),
            (0xd9u8, 0x81u8) => Some(Dcs::D731N),
            (0xdau8, 0x81u8) => Some(Dcs::D732N),
            (0xdcu8, 0x81u8) => Some(Dcs::D734N),
            (0xe3u8, 0x81u8) => Some(Dcs::D743N),
            (0xecu8, 0x81u8) => Some(Dcs::D754N),
            (0x13u8, 0xc0u8) => Some(Dcs::D023I),
            (0x15u8, 0xc0u8) => Some(Dcs::D025I),
            (0x16u8, 0xc0u8) => Some(Dcs::D026I),
            (0x19u8, 0xc0u8) => Some(Dcs::D031I),
            (0x1au8, 0xc0u8) => Some(Dcs::D032I),
            (0x1eu8, 0xc0u8) => Some(Dcs::D036I),
            (0x23u8, 0xc0u8) => Some(Dcs::D043I),
            (0x27u8, 0xc0u8) => Some(Dcs::D047I),
            (0x29u8, 0xc0u8) => Some(Dcs::D051I),
            (0x2bu8, 0xc0u8) => Some(Dcs::D053I),
            (0x2cu8, 0xc0u8) => Some(Dcs::D054I),
            (0x35u8, 0xc0u8) => Some(Dcs::D065I),
            (0x39u8, 0xc0u8) => Some(Dcs::D071I),
            (0x3au8, 0xc0u8) => Some(Dcs::D072I),
            (0x3bu8, 0xc0u8) => Some(Dcs::D073I),
            (0x3cu8, 0xc0u8) => Some(Dcs::D074I),
            (0x4cu8, 0xc0u8) => Some(Dcs::D114I),
            (0x4du8, 0xc0u8) => Some(Dcs::D115I),
            (0x4eu8, 0xc0u8) => Some(Dcs::D116I),
            (0x52u8, 0xc0u8) => Some(Dcs::D122I),
            (0x55u8, 0xc0u8) => Some(Dcs::D125I),
            (0x59u8, 0xc0u8) => Some(Dcs::D131I),
            (0x5au8, 0xc0u8) => Some(Dcs::D132I),
            (0x5cu8, 0xc0u8) => Some(Dcs::D134I),
            (0x63u8, 0xc0u8) => Some(Dcs::D143I),
            (0x65u8, 0xc0u8) => Some(Dcs::D145I),
            (0x6au8, 0xc0u8) => Some(Dcs::D152I),
            (0x6du8, 0xc0u8) => Some(Dcs::D155I),
            (0x6eu8, 0xc0u8) => Some(Dcs::D156I),
            (0x72u8, 0xc0u8) => Some(Dcs::D162I),
            (0x75u8, 0xc0u8) => Some(Dcs::D165I),
            (0x7au8, 0xc0u8) => Some(Dcs::D172I),
            (0x7cu8, 0xc0u8) => Some(Dcs::D174I),
            (0x85u8, 0xc0u8) => Some(Dcs::D205I),
            (0x8au8, 0xc0u8) => Some(Dcs::D212I),
            (0x93u8, 0xc0u8) => Some(Dcs::D223I),
            (0x95u8, 0xc0u8) => Some(Dcs::D225I),
            (0x96u8, 0xc0u8) => Some(Dcs::D226I),
            (0xa3u8, 0xc0u8) => Some(Dcs::D243I),
            (0xa4u8, 0xc0u8) => Some(Dcs::D244I),
            (0xa5u8, 0xc0u8) => Some(Dcs::D245I),
            (0xa6u8, 0xc0u8) => Some(Dcs::D246I),
            (0xa9u8, 0xc0u8) => Some(Dcs::D251I),
            (0xaau8, 0xc0u8) => Some(Dcs::D252I),
            (0xadu8, 0xc0u8) => Some(Dcs::D255I),
            (0xb1u8, 0xc0u8) => Some(Dcs::D261I),
            (0xb3u8, 0xc0u8) => Some(Dcs::D263I),
            (0xb5u8, 0xc0u8) => Some(Dcs::D265I),
            (0xb6u8, 0xc0u8) => Some(Dcs::D266I),
            (0xb9u8, 0xc0u8) => Some(Dcs::D271I),
            (0xbcu8, 0xc0u8) => Some(Dcs::D274I),
            (0xc6u8, 0xc0u8) => Some(Dcs::D306I),
            (0xc9u8, 0xc0u8) => Some(Dcs::D311I),
            (0xcdu8, 0xc0u8) => Some(Dcs::D315I),
            (0xd5u8, 0xc0u8) => Some(Dcs::D325I),
            (0xd9u8, 0xc0u8) => Some(Dcs::D331I),
            (0xdau8, 0xc0u8) => Some(Dcs::D332I),
            (0xe3u8, 0xc0u8) => Some(Dcs::D343I),
            (0xe6u8, 0xc0u8) => Some(Dcs::D346I),
            (0xe9u8, 0xc0u8) => Some(Dcs::D351I),
            (0xeeu8, 0xc0u8) => Some(Dcs::D356I),
            (0xf4u8, 0xc0u8) => Some(Dcs::D364I),
            (0xf5u8, 0xc0u8) => Some(Dcs::D365I),
            (0xf9u8, 0xc0u8) => Some(Dcs::D371I),
            (0x09u8, 0xc1u8) => Some(Dcs::D411I),
            (0x0au8, 0xc1u8) => Some(Dcs::D412I),
            (0x0bu8, 0xc1u8) => Some(Dcs::D413I),
            (0x13u8, 0xc1u8) => Some(Dcs::D423I),
            (0x19u8, 0xc1u8) => Some(Dcs::D431I),
            (0x1au8, 0xc1u8) => Some(Dcs::D432I),
            (0x25u8, 0xc1u8) => Some(Dcs::D445I),
            (0x26u8, 0xc1u8) => Some(Dcs::D446I),
            (0x2au8, 0xc1u8) => Some(Dcs::D452I),
            (0x2cu8, 0xc1u8) => Some(Dcs::D454I),
            (0x2du8, 0xc1u8) => Some(Dcs::D455I),
            (0x32u8, 0xc1u8) => Some(Dcs::D462I),
            (0x34u8, 0xc1u8) => Some(Dcs::D464I),
            (0x35u8, 0xc1u8) => Some(Dcs::D465I),
            (0x36u8, 0xc1u8) => Some(Dcs::D466I),
            (0x43u8, 0xc1u8) => Some(Dcs::D503I),
            (0x46u8, 0xc1u8) => Some(Dcs::D506I),
            (0x4eu8, 0xc1u8) => Some(Dcs::D516I),
            (0x53u8, 0xc1u8) => Some(Dcs::D523I),
            (0x56u8, 0xc1u8) => Some(Dcs::D526I),
            (0x5au8, 0xc1u8) => Some(Dcs::D532I),
            (0x66u8, 0xc1u8) => Some(Dcs::D546I),
            (0x75u8, 0xc1u8) => Some(Dcs::D565I),
            (0x86u8, 0xc1u8) => Some(Dcs::D606I),
            (0x8au8, 0xc1u8) => Some(Dcs::D612I),
            (0x94u8, 0xc1u8) => Some(Dcs::D624I),
            (0x97u8, 0xc1u8) => Some(Dcs::D627I),
            (0x99u8, 0xc1u8) => Some(Dcs::D631I),
            (0x9au8, 0xc1u8) => Some(Dcs::D632I),
            (0xacu8, 0xc1u8) => Some(Dcs::D654I),
            (0xb2u8, 0xc1u8) => Some(Dcs::D662I),
            (0xb4u8, 0xc1u8) => Some(Dcs::D664I),
            (0xc3u8, 0xc1u8) => Some(Dcs::D703I),
            (0xcau8, 0xc1u8) => Some(Dcs::D712I),
            (0xd3u8, 0xc1u8) => Some(Dcs::D723I),
            (0xd9u8, 0xc1u8) => Some(Dcs::D731I),
            (0xdau8, 0xc1u8) => Some(Dcs::D732I),
            (0xdcu8, 0xc1u8) => Some(Dcs::D734I),
            (0xe3u8, 0xc1u8) => Some(Dcs::D743I),
            (0xecu8, 0xc1u8) => Some(Dcs::D754I),
            _ => None,
        }
    }

    /// What decoding a slice gives: two bytes that name a code, or an error.
    pub open spec fn decode(bytes: Seq<u8>) -> Result<Dcs, ()> {
        if bytes.len() == 2 {
            match Dcs::from_code(bytes[0], bytes[1]) {
                Some(code) => Ok(code),
                None => Err(()),
            }
        } else {
            Err(())
        }
    }

    /// The two bytes the radio stores for this code.
    pub fn to_bytes(&self) -> (bytes: Vec<u8>)
        ensures
            bytes@ == seq![self.code().0, self.code().1],
    {
        let bytes: Vec<u8> = match self {
            Dcs::D023N => vec![0x13, 0x80],
            Dcs::D025N => vec![0x15, 0x80],
            Dcs::D026N => vec![0x16, 0x80],
            Dcs::D031N => vec![0x19, 0x80],
            Dcs::D032N => vec![0x1a, 0x80],
            Dcs::D036N => vec![0x1e, 0x80],
            Dcs::D043N => vec![0x23, 0x80],
            Dcs::D047N => vec![0x27, 0x80],
            Dcs::D051N => vec![0x29, 0x80],
            Dcs::D053N => vec![0x2b, 0x80],
            Dcs::D054N => vec![0x2c, 0x80],
            Dcs::D065N => vec![0x35, 0x80],
            Dcs::D071N => vec![0x39, 0x80],
            Dcs::D072N => vec![0x3a, 0x80],
            Dcs::D073N => vec![0x3b, 0x80],
            Dcs::D074N => vec![0x3c, 0x80],
            Dcs::D114N => vec![0x4c, 0x80],
            Dcs::D115N => vec![0x4d, 0x80],
            Dcs::D116N => vec![0x4e, 0x80],
            Dcs::D122N => vec![0x52, 0x80],
            Dcs::D125N => vec![0x55, 0x80],
            Dcs::D131N => vec![0x59, 0x80],
            Dcs::D132N => vec![0x5a, 0x80],
            Dcs::D134N => vec![0x5c, 0x80],
            Dcs::D143N => vec![0x63, 0x80],
            Dcs::D145N => vec![0x65, 0x80],
            Dcs::D152N => vec![0x6a, 0x80],
            Dcs::D155N => vec![0x6d, 0x80],
            Dcs::D156N => vec![0x6e, 0x80],
            Dcs::D162N => vec![0x72, 0x80],
            Dcs::D165N => vec![0x75, 0x80],
            Dcs::D172N => vec![0x7a, 0x80],
            Dcs::D174N => vec![0x7c, 0x80],
            Dcs::D205N => vec![0x85, 0x80],
            Dcs::D212N => vec![0x8a, 0x80],
            Dcs::D223N => vec![0x93, 0x80],
            Dcs::D225N => vec![0x95, 0x80],
            Dcs::D226N => vec![0x96, 0x80],
            Dcs::D243N => vec![0xa3, 0x80],
            Dcs::D244N => vec![0xa4, 0x80],
            Dcs::D245N => vec![0xa5, 0x80],
            Dcs::D246N => vec![0xa6, 0x80],
            Dcs::D251N => vec![0xa9, 0x80],
            Dcs::D252N => vec![0xaa, 0x80],
            Dcs::D255N => vec![0xad, 0x80],
            Dcs::D261N => vec![0xb1, 0x80],
            Dcs::D263N => vec![0xb3, 0x80],
            Dcs::D265N => vec![0xb5, 0x80],
            Dcs::D266N => vec![0xb6, 0x80],
            Dcs::D271N => vec![0xb9, 0x80],
            Dcs::D274N => vec![0xbc, 0x80],
            Dcs::D306N => vec![0xc6, 0x80],
            Dcs::D311N => vec![0xc9, 0x80],
            Dcs::D315N => vec![0xcd, 0x80],
            Dcs::D325N => vec![0xd5, 0x80],
            Dcs::D331N => vec![0xd9, 0x80],
            Dcs::D332N => vec![0xda, 0x80],
            Dcs::D343N => vec![0xe3, 0x80],
            Dcs::D346N => vec![0xe6, 0x80],
            Dcs::D351N => vec![0xe9, 0x80],
            Dcs::D356N => vec![0xee, 0x80],
            Dcs::D364N => vec![0xf4, 0x80],
            Dcs::D365N => vec![0xf5, 0x80],
            Dcs::D371N => vec![0xf9, 0x80],
            Dcs::D411N => vec![0x09, 0x81],
            Dcs::D412N => vec![0x0a, 0x81],
            Dcs::D413N => vec![0x0b, 0x81],
            Dcs::D423N => vec![0x13, 0x81],
            Dcs::D431N => vec![0x19, 0x81],
            Dcs::D432N => vec![0x1a, 0x81],
            Dcs::D445N => vec![0x25, 0x81],
            Dcs::D446N => vec![0x26, 0x81],
            Dcs::D452N => vec![0x2a, 0x81],
            Dcs::D454N => vec![0x2c, 0x81],
            Dcs::D455N => vec![0x2d, 0x81],
            Dcs::D462N => vec![0x32, 0x81],
            Dcs::D464N => vec![0x34, 0x81],
            Dcs::D465N => vec![0x35, 0x81],
            Dcs::D466N => vec![0x36, 0x81],
            Dcs::D503N => vec![0x43, 0x81],
            Dcs::D506N => vec![0x46, 0x81],
            Dcs::D516N => vec![0x4e, 0x81],
            Dcs::D523N => vec![0x53, 0x81],
            Dcs::D526N => vec![0x56, 0x81],
            Dcs::D532N => vec![0x5a, 0x81],
            Dcs::D546N => vec![0x66, 0x81],
            Dcs::D565N => vec![0x75, 0x81],
            Dcs::D606N => vec![0x86, 0x81],
            Dcs::D612N => vec![0x8a, 0x81],
            Dcs::D624N => vec![0x94, 0x81],
            Dcs::D627N => vec![0x97, 0x81],
            Dcs::D631N => vec![0x99, 0x81],
            Dcs::D632N => vec![0x9a, 0x81],
            Dcs::D654N => vec![0xac, 0x81],
            Dcs::D662N => vec![0xb2, 0x81],
            Dcs::D664N => vec![0xb4, 0x81],
            Dcs::D703N => vec![0xc3, 0x81],
            Dcs::D712N => vec![0xca, 0x81],
            Dcs::D723N => vec![0xd3, 0x81],
            Dcs::D731N => vec![0xd9, 0x81],
            Dcs::D732N => vec![0xda, 0x81],
            Dcs::D734N => vec![0xdc, 0x81],
            Dcs::D743N => vec![0xe3, 0x81],
            Dcs::D754N => vec![0xec, 0x81],
            Dcs::D023I => vec![0x13, 0xc0],
            Dcs::D025I => vec![0x15, 0xc0],
            Dcs::D026I => vec![0x16, 0xc0],
            Dcs::D031I => vec![0x19, 0xc0],
            Dcs::D032I => vec![0x1a, 0xc0],
            Dcs::D036I => vec![0x1e, 0xc0],
            Dcs::D043I => vec![0x23, 0xc0],
            Dcs::D047I => vec![0x27, 0xc0],
            Dcs::D051I => vec![0x29, 0xc0],
            Dcs::D053I => vec![0x2b, 0xc0],
            Dcs::D054I => vec![0x2c, 0xc0],
            Dcs::D065I => vec![0x35, 0xc0],
            Dcs::D071I => vec![0x39, 0xc0],
            Dcs::D072I => vec![0x3a, 0xc0],
            Dcs::D073I => vec![0x3b, 0xc0],
            Dcs::D074I => vec![0x3c, 0xc0],
            Dcs::D114I => vec![0x4c, 0xc0],
            Dcs::D115I => vec![0x4d, 0xc0],
            Dcs::D116I => vec![0x4e, 0xc0],
            Dcs::D122I => vec![0x52, 0xc0],
            Dcs::D125I => vec![0x55, 0xc0],
            Dcs::D131I => vec![0x59, 0xc0],
            Dcs::D132I => vec![0x5a, 0xc0],
            Dcs::D134I => vec![0x5c, 0xc0],
            Dcs::D143I => vec![0x63, 0xc0],
            Dcs::D145I => vec![0x65, 0xc0],
            Dcs::D152I => vec![0x6a, 0xc0],
            Dcs::D155I => vec![0x6d, 0xc0],
            Dcs::D156I => vec![0x6e, 0xc0],
            Dcs::D162I => vec![0x72, 0xc0],
            Dcs::D165I => vec![0x75, 0xc0],
            Dcs::D172I => vec![0x7a, 0xc0],
            Dcs::D174I => vec![0x7c, 0xc0],
            Dcs::D205I => vec![0x85, 0xc0],
            Dcs::D212I => vec![0x8a, 0xc0],
            Dcs::D223I => vec![0x93, 0xc0],
            Dcs::D225I => vec![0x95, 0xc0],
            Dcs::D226I => vec![0x96, 0xc0],
            Dcs::D243I => vec![0xa3, 0xc0],
            Dcs::D244I => vec![0xa4, 0xc0],
            Dcs::D245I => vec![0xa5, 0xc0],
            Dcs::D246I => vec![0xa6, 0xc0],
            Dcs::D251I => vec![0xa9, 0xc0],
            Dcs::D252I => vec![0xaa, 0xc0],
            Dcs::D255I => vec![0xad, 0xc0],
            Dcs::D261I => vec![0xb1, 0xc0],
            Dcs::D263I => vec![0xb3, 0xc0],
            Dcs::D265I => vec![0xb5, 0xc0],
            Dcs::D266I => vec![0xb6, 0xc0],
            Dcs::D271I => vec![0xb9, 0xc0],
            Dcs::D274I => vec![0xbc, 0xc0],
            Dcs::D306I => vec![0xc6, 0xc0],
            Dcs::D311I => vec![0xc9, 0xc0],
            Dcs::D315I => vec![0xcd, 0xc0],
            Dcs::D325I => vec![0xd5, 0xc0],
            Dcs::D331I => vec![0xd9, 0xc0],
            Dcs::D332I => vec![0xda, 0xc0],
            Dcs::D343I => vec![0xe3, 0xc0],
            Dcs::D346I => vec![0xe6, 0xc0],
            Dcs::D351I => vec![0xe9, 0xc0],
            Dcs::D356I => vec![0xee, 0xc0],
            Dcs::D364I => vec![0xf4, 0xc0],
            Dcs::D365I => vec![0xf5, 0xc0],
            Dcs::D371I => vec![0xf9, 0xc0],
            Dcs::D411I => vec![0x09, 0xc1],
            Dcs::D412I => vec![0x0a, 0xc1],
            Dcs::D413I => vec![0x0b, 0xc1],
            Dcs::D423I => vec![0x13, 0xc1],
            Dcs::D431I => vec![0x19, 0xc1],
            Dcs::D432I => vec![0x1a, 0xc1],
            Dcs::D445I => vec![0x25, 0xc1],
            Dcs::D446I => vec![0x26, 0xc1],
            Dcs::D452I => vec![0x2a, 0xc1],
            Dcs::D454I => vec![0x2c, 0xc1],
            Dcs::D455I => vec![0x2d, 0xc1],
            Dcs::D462I => vec![0x32, 0xc1],
            Dcs::D464I => vec![0x34, 0xc1],
            Dcs::D465I => vec![0x35, 0xc1],
            Dcs::D466I => vec![0x36, 0xc1],
            Dcs::D503I => vec![0x43, 0xc1],
            Dcs::D506I => vec![0x46, 0xc1],
            Dcs::D516I => vec![0x4e, 0xc1],
            Dcs::D523I => vec![0x53, 0xc1],
            Dcs::D526I => vec![0x56, 0xc1],
            Dcs::D532I => vec![0x5a, 0xc1],
            Dcs::D546I => vec![0x66, 0xc1],
            Dcs::D565I => vec![0x75, 0xc1],
            Dcs::D606I => vec![0x86, 0xc1],
            Dcs::D612I => vec![0x8a, 0xc1],
            Dcs::D624I => vec![0x94, 0xc1],
            Dcs::D627I => vec![0x97, 0xc1],
            Dcs::D631I => vec![0x99, 0xc1],
            Dcs::D632I => vec![0x9a, 0xc1],
            Dcs::D654I => vec![0xac, 0xc1],
            Dcs::D662I => vec![0xb2, 0xc1],
            Dcs::D664I => vec![0xb4, 0xc1],
            Dcs::D703I => vec![0xc3, 0xc1],
            Dcs::D712I => vec![0xca, 0xc1],
            Dcs::D723I => vec![0xd3, 0xc1],
            Dcs::D731I => vec![0xd9, 0xc1],
            Dcs::D732I => vec![0xda, 0xc1],
            Dcs::D734I => vec![0xdc, 0xc1],
            Dcs::D743I => vec![0xe3, 0xc1],
            Dcs::D754I => vec![0xec, 0xc1],
        };
        assert(bytes@ =~= seq![self.code().0, self.code().1]);
        bytes
    }
}

impl TryFrom<&[u8]> for Dcs {
    type Error = ();

    fn try_from(value: &[u8]) -> (result: Result<Self, Self::Error>)
        ensures
            result == Dcs::decode(value@),
    {
        if value.len() != 2 {
            return Err(());
        }
        match (value[0], value[1]) {
            (0x13, 0x80) => Ok(Dcs::D023N),
            (0x15, 0x80) => Ok(Dcs::D025N),
            (0x16, 0x80) => Ok(Dcs::D026N),
            (0x19, 0x80) => Ok(Dcs::D031N),
            (0x1a, 0x80) => Ok(Dcs::D032N),
            (0x1e, 0x80) => Ok(Dcs::D036N),
            (0x23, 0x80) => Ok(Dcs::D043N),
            (0x27, 0x80) => Ok(Dcs::D047N),
            (0x29, 0x80) => Ok(Dcs::D051N),
            (0x2b, 0x80) => Ok(Dcs::D053N),
            (0x2c, 0x80) => Ok(Dcs::D054N),
            (0x35, 0x80) => Ok(Dcs::D065N),
            (0x39, 0x80) => Ok(Dcs::D071N),
            (0x3a, 0x80) => Ok(Dcs::D072N),
            (0x3b, 0x80) => Ok(Dcs::D073N),
            (0x3c, 0x80) => Ok(Dcs::D074N),
            (0x4c, 0x80) => Ok(Dcs::D114N),
            (0x4d, 0x80) => Ok(Dcs::D115N),
            (0x4e, 0x80) => Ok(Dcs::D116N),
            (0x52, 0x80) => Ok(Dcs::D122N),
            (0x55, 0x80) => Ok(Dcs::D125N),
            (0x59, 0x80) => Ok(Dcs::D131N),
            (0x5a, 0x80) => Ok(Dcs::D132N),
            (0x5c, 0x80) => Ok(Dcs::D134N),
            (0x63, 0x80) => Ok(Dcs::D143N),
            (0x65, 0x80) => Ok(Dcs::D145N),
            (0x6a, 0x80) => Ok(Dcs::D152N),
            (0x6d, 0x80) => Ok(Dcs::D155N),
            (0x6e, 0x80) => Ok(Dcs::D156N),
            (0x72, 0x80) => Ok(Dcs::D162N),
            (0x75, 0x80) => Ok(Dcs::D165N),
            (0x7a, 0x80) => Ok(Dcs::D172N),
            (0x7c, 0x80) => Ok(Dcs::D174N),
            (0x85, 0x80) => Ok(Dcs::D205N),
            (0x8a, 0x80) => Ok(Dcs::D212N),
            (0x93, 0x80) => Ok(Dcs::D223N),
            (0x95, 0x80) => Ok(Dcs::D225N),
            (0x96, 0x80) => Ok(Dcs::D226N),
            (0xa3, 0x80) => Ok(Dcs::D243N),
            (0xa4, 0x80) => Ok(Dcs::D244N),
            (0xa5, 0x80) => Ok(Dcs::D245N),
            (0xa6, 0x80) => Ok(Dcs::D246N),
            (0xa9, 0x80) => Ok(Dcs::D251N),
            (0xaa, 0x80) => Ok(Dcs::D252N),
            (0xad, 0x80) => Ok(Dcs::D255N),
            (0xb1, 0x80) => Ok(Dcs::D261N),
            (0xb3, 0x80) => Ok(Dcs::D263N),
            (0xb5, 0x80) => Ok(Dcs::D265N),
            (0xb6, 0x80) => Ok(Dcs::D266N),
            (0xb9, 0x80) => Ok(Dcs::D271N),
            (0xbc, 0x80) => Ok(Dcs::D274N),
            (0xc6, 0x80) => Ok(Dcs::D306N),
            (0xc9, 0x80) => Ok(Dcs::D311N),
            (0xcd, 0x80) => Ok(Dcs::D315N),
            (0xd5, 0x80) => Ok(Dcs::D325N),
            (0xd9, 0x80) => Ok(Dcs::D331N),
            (0xda, 0x80) => Ok(Dcs::D332N),
            (0xe3, 0x80) => Ok(Dcs::D343N),
            (0xe6, 0x80) => Ok(Dcs::D346N),
            (0xe9, 0x80) => Ok(Dcs::D351N),
            (0xee, 0x80) => Ok(Dcs::D356N),
            (0xf4, 0x80) => Ok(Dcs::D364N),
            (0xf5, 0x80) => Ok(Dcs::D365N),
            (0xf9, 0x80) => Ok(Dcs::D371N),
            (0x09, 0x81) => Ok(Dcs::D411N),
            (0x0a, 0x81) => Ok(Dcs::D412N),
            (0x0b, 0x81) => Ok(Dcs::D413N),
            (0x13, 0x81) => Ok(Dcs::D423N),
            (0x19, 0x81) => Ok(Dcs::D431N),
            (0x1a, 0x81) => Ok(Dcs::D432N),
            (0x25, 0x81) => Ok(Dcs::D445N),
            (0x26, 0x81) => Ok(Dcs::D446N),
            (0x2a, 0x81) => Ok(Dcs::D452N),
            (0x2c, 0x81) => Ok(Dcs::D454N),
            (0x2d, 0x81) => Ok(Dcs::D455N),
            (0x32, 0x81) => Ok(Dcs::D462N),
            (0x34, 0x81) => Ok(Dcs::D464N),
            (0x35, 0x81) => Ok(Dcs::D465N),
            (0x36, 0x81) => Ok(Dcs::D466N),
            (0x43, 0x81) => Ok(Dcs::D503N),
            (0x46, 0x81) => Ok(Dcs::D506N),
            (0x4e, 0x81) => Ok(Dcs::D516N),
            (0x53, 0x81) => Ok(Dcs::D523N),
            (0x56, 0x81) => Ok(Dcs::D526N),
            (0x5a, 0x81) => Ok(Dcs::D532N),
            (0x66, 0x81) => Ok(Dcs::D546N),
            (0x75, 0x81) => Ok(Dcs::D565N),
            (0x86, 0x81) => Ok(Dcs::D606N),
            (0x8a, 0x81) => Ok(Dcs::D612N),
            (0x94, 0x81) => Ok(Dcs::D624N),
            (0x97, 0x81) => Ok(Dcs::D627N),
            (0x99, 0x81) => Ok(Dcs::D631N),
            (0x9a, 0x81) => Ok(Dcs::D632N),
            (0xac, 0x81) => Ok(Dcs::D654N),
            (0xb2, 0x81) => Ok(Dcs::D662N),
            (0xb4, 0x81) => Ok(Dcs::D664N),
            (0xc3, 0x81) => Ok(Dcs::D703N),
            (0xca, 0x81) => Ok(Dcs::D712N),
            (0xd3, 0x81) => Ok(Dcs::D723N),
            (0xd9, 0x81) => Ok(Dcs::D731N),
            (0xda, 0x81) => Ok(Dcs::D732N),
            (0xdc, 0x81) => Ok(Dcs::D734N),
            (0xe3, 0x81) => Ok(Dcs::D743N),
            (0xec, 0x81) => Ok(Dcs::D754N),
            (0x13, 0xc0) => Ok(Dcs::D023I),
            (0x15, 0xc0) => Ok(Dcs::D025I),
            (0x16, 0xc0) => Ok(Dcs::D026I),
            (0x19, 0xc0) => Ok(Dcs::D031I),
            (0x1a, 0xc0) => Ok(Dcs::D032I),
            (0x1e, 0xc0) => Ok(Dcs::D036I),
            (0x23, 0xc0) => Ok(Dcs::D043I),
            (0x27, 0xc0) => Ok(Dcs::D047I),
            (0x29, 0xc0) => Ok(Dcs::D051I),
            (0x2b, 0xc0) => Ok(Dcs::D053I),
            (0x2c, 0xc0) => Ok(Dcs::D054I),
            (0x35, 0xc0) => Ok(Dcs::D065I),
            (0x39, 0xc0) => Ok(Dcs::D071I),
            (0x3a, 0xc0) => Ok(Dcs::D072I),
            (0x3b, 0xc0) => Ok(Dcs::D073I),
            (0x3c, 0xc0) => Ok(Dcs::D074I),
            (0x4c, 0xc0) => Ok(Dcs::D114I),
            (0x4d, 0xc0) => Ok(Dcs::D115I),
            (0x4e, 0xc0) => Ok(Dcs::D116I),
            (0x52, 0xc0) => Ok(Dcs::D122I),
            (0x55, 0xc0) => Ok(Dcs::D125I),
            (0x59, 0xc0) => Ok(Dcs::D131I),
            (0x5a, 0xc0) => Ok(Dcs::D132I),
            (0x5c, 0xc0) => Ok(Dcs::D134I),
            (0x63, 0xc0) => Ok(Dcs::D143I),
            (0x65, 0xc0) => Ok(Dcs::D145I),
            (0x6a, 0xc0) => Ok(Dcs::D152I),
            (0x6d, 0xc0) => Ok(Dcs::D155I),
            (0x6e, 0xc0) => Ok(Dcs::D156I),
            (0x72, 0xc0) => Ok(Dcs::D162I),
            (0x75, 0xc0) => Ok(Dcs::D165I),
            (0x7a, 0xc0) => Ok(Dcs::D172I),
            (0x7c, 0xc0) => Ok(Dcs::D174I),
            (0x85, 0xc0) => Ok(Dcs::D205I),
            (0x8a, 0xc0) => Ok(Dcs::D212I),
            (0x93, 0xc0) => Ok(Dcs::D223I),
            (0x95, 0xc0) => Ok(Dcs::D225I),
            (0x96, 0xc0) => Ok(Dcs::D226I),
            (0xa3, 0xc0) => Ok(Dcs::D243I),
            (0xa4, 0xc0) => Ok(Dcs::D244I),
            (0xa5, 0xc0) => Ok(Dcs::D245I),
            (0xa6, 0xc0) => Ok(Dcs::D246I),
            (0xa9, 0xc0) => Ok(Dcs::D251I),
            (0xaa, 0xc0) => Ok(Dcs::D252I),
            (0xad, 0xc0) => Ok(Dcs::D255I),
            (0xb1, 0xc0) => Ok(Dcs::D261I),
            (0xb3, 0xc0) => Ok(Dcs::D263I),
            (0xb5, 0xc0) => Ok(Dcs::D265I),
            (0xb6, 0xc0) => Ok(Dcs::D266I),
            (0xb9, 0xc0) => Ok(Dcs::D271I),
            (0xbc, 0xc0) => Ok(Dcs::D274I),
            (0xc6, 0xc0) => Ok(Dcs::D306I),
            (0xc9, 0xc0) => Ok(Dcs::D311I),
            (0xcd, 0xc0) => Ok(Dcs::D315I),
            (0xd5, 0xc0) => Ok(Dcs::D325I),
            (0xd9, 0xc0) => Ok(Dcs::D331I),
            (0xda, 0xc0) => Ok(Dcs::D332I),
            (0xe3, 0xc0) => Ok(Dcs::D343I),
            (0xe6, 0xc0) => Ok(Dcs::D346I),
            (0xe9, 0xc0) => Ok(Dcs::D351I),
            (0xee, 0xc0) => Ok(Dcs::D356I),
            (0xf4, 0xc0) => Ok(Dcs::D364I),
            (0xf5, 0xc0) => Ok(Dcs::D365I),
            (0xf9, 0xc0) => Ok(Dcs::D371I),
            (0x09, 0xc1) => Ok(Dcs::D411I),
            (0x0a, 0xc1) => Ok(Dcs::D412I),
            (0x0b, 0xc1) => Ok(Dcs::D413I),
            (0x13, 0xc1) => Ok(Dcs::D423I),
            (0x19, 0xc1) => Ok(Dcs::D431I),
            (0x1a, 0xc1) => Ok(Dcs::D432I),
            (0x25, 0xc1) => Ok(Dcs::D445I),
            (0x26, 0xc1) => Ok(Dcs::D446I),
            (0x2a, 0xc1) => Ok(Dcs::D452I),
            (0x2c, 0xc1) => Ok(Dcs::D454I),
            (0x2d, 0xc1) => Ok(Dcs::D455I),
            (0x32, 0xc1) => Ok(Dcs::D462I),
            (0x34, 0xc1) => Ok(Dcs::D464I),
            (0x35, 0xc1) => Ok(Dcs::D465I),
            (0x36, 0xc1) => Ok(Dcs::D466I),
            (0x43, 0xc1) => Ok(Dcs::D503I),
            (0x46, 0xc1) => Ok(Dcs::D506I),
            (0x4e, 0xc1) => Ok(Dcs::D516I),
            (0x53, 0xc1) => Ok(Dcs::D523I),
            (0x56, 0xc1) => Ok(Dcs::D526I),
            (0x5a, 0xc1) => Ok(Dcs::D532I),
            (0x66, 0xc1) => Ok(Dcs::D546I),
            (0x75, 0xc1) => Ok(Dcs::D565I),
            (0x86, 0xc1) => Ok(Dcs::D606I),
            (0x8a, 0xc1) => Ok(Dcs::D612I),
            (0x94, 0xc1) => Ok(Dcs::D624I),
            (0x97, 0xc1) => Ok(Dcs::D627I),
            (0x99, 0xc1) => Ok(Dcs::D631I),
            (0x9a, 0xc1) => Ok(Dcs::D632I),
            (0xac, 0xc1) => Ok(Dcs::D654I),
            (0xb2, 0xc1) => Ok(Dcs::D662I),
            (0xb4, 0xc1) => Ok(Dcs::D664I),
            (0xc3, 0xc1) => Ok(Dcs::D703I),
            (0xca, 0xc1) => Ok(Dcs::D712I),
            (0xd3, 0xc1) => Ok(Dcs::D723I),
            (0xd9, 0xc1) => Ok(Dcs::D731I),
            (0xda, 0xc1) => Ok(Dcs::D732I),
            (0xdc, 0xc1) => Ok(Dcs::D734I),
            (0xe3, 0xc1) => Ok(Dcs::D743I),
            (0xec, 0xc1) => Ok(Dcs::D754I),
            _ => Err(()),
        }
    }
}

impl vstd::std_specs::convert::TryFromSpecImpl<&[u8]> for Dcs {
    open spec fn obeys_try_from_spec() -> bool {
        true
    }

    open spec fn try_from_spec(value: &[u8]) -> Result<Self, ()> {
        Dcs::decode(value@)
    }
}

/// Decoding the bytes stored for a code gives that code back. The bytes are never
/// `ff ff`, and the high bit of the second byte is set.
pub proof fn lemma_dcs_code_round_trip(code: Dcs)
    ensures
        Dcs::from_code(code.code().0, code.code().1) == Some(code),
        code.code().1 >= 0x80,
        code.code() != (0xffu8, 0xffu8),
{
}

/// Two bytes that name a code are the bytes stored for it.
pub proof fn lemma_dcs_bytes_round_trip(first: u8, second: u8)
    requires
        Dcs::from_code(first, second) is Some,
    ensures
        Dcs::from_code(first, second).unwrap().code() == (first, second),
{
}

/// A code's number, the octal number its name writes (`D754N` is `0o754`).
pub open spec fn code_number(code: Dcs) -> nat {
    match code {
            Dcs::D023N => 0o023,
            Dcs::D025N => 0o025,
            Dcs::D026N => 0o026,
            Dcs::D031N => 0o031,
            Dcs::D032N => 0o032,
            Dcs::D036N => 0o036,
            Dcs::D043N => 0o043,
            Dcs::D047N => 0o047,
            Dcs::D051N => 0o051,
            Dcs::D053N => 0o053,
            Dcs::D054N => 0o054,
            Dcs::D065N => 0o065,
            Dcs::D071N => 0o071,
            Dcs::D072N => 0o072,
            Dcs::D073N => 0o073,
            Dcs::D074N => 0o074,
            Dcs::D114N => 0o114,
            Dcs::D115N => 0o115,
            Dcs::D116N => 0o116,
            Dcs::D122N => 0o122,
            Dcs::D125N => 0o125,
            Dcs::D131N => 0o131,
            Dcs::D132N => 0o132,
            Dcs::D134N => 0o134,
            Dcs::D143N => 0o143,
            Dcs::D145N => 0o145,
            Dcs::D152N => 0o152,
            Dcs::D155N => 0o155,
            Dcs::D156N => 0o156,
            Dcs::D162N => 0o162,
            Dcs::D165N => 0o165,
            Dcs::D172N => 0o172,
            Dcs::D174N => 0o174,
            Dcs::D205N => 0o205,
            Dcs::D212N => 0o212,
            Dcs::D223N => 0o223,
            Dcs::D225N => 0o225,
            Dcs::D226N => 0o226,
            Dcs::D243N => 0o243,
            Dcs::D244N => 0o244,
            Dcs::D245N => 0o245,
            Dcs::D246N => 0o246,
            Dcs::D251N => 0o251,
            Dcs::D252N => 0o252,
            Dcs::D255N => 0o255,
            Dcs::D261N => 0o261,
            Dcs::D263N => 0o263,
            Dcs::D265N => 0o265,
            Dcs::D266N => 0o266,
            Dcs::D271N => 0o271,
            Dcs::D274N => 0o274,
            Dcs::D306N => 0o306,
            Dcs::D311N => 0o311,
            Dcs::D315N => 0o315,
            Dcs::D325N => 0o325,
            Dcs::D331N => 0o331,
            Dcs::D332N => 0o332,
            Dcs::D343N => 0o343,
            Dcs::D346N => 0o346,
            Dcs::D351N => 0o351,
            Dcs::D356N => 0o356,
            Dcs::D364N => 0o364,
            Dcs::D365N => 0o365,
            Dcs::D371N => 0o371,
            Dcs::D411N => 0o411,
            Dcs::D412N => 0o412,
            Dcs::D413N => 0o413,
            Dcs::D423N => 0o423,
            Dcs::D431N => 0o431,
            Dcs::D432N => 0o432,
            Dcs::D445N => 0o445,
            Dcs::D446N => 0o446,
            Dcs::D452N => 0o452,
            Dcs::D454N => 0o454,
            Dcs::D455N => 0o455,
            Dcs::D462N => 0o462,
            Dcs::D464N => 0o464,
            Dcs::D465N => 0o465,
            Dcs::D466N => 0o466,
            Dcs::D503N => 0o503,
            Dcs::D506N => 0o506,
            Dcs::D516N => 0o516,
            Dcs::D523N => 0o523,
            Dcs::D526N => 0o526,
            Dcs::D532N => 0o532,
            Dcs::D546N => 0o546,
            Dcs::D565N => 0o565,
            Dcs::D606N => 0o606,
            Dcs::D612N => 0o612,
            Dcs::D624N => 0o624,
            Dcs::D627N => 0o627,
            Dcs::D631N => 0o631,
            Dcs::D632N => 0o632,
            Dcs::D654N => 0o654,
            Dcs::D662N => 0o662,
            Dcs::D664N => 0o664,
            Dcs::D703N => 0o703,
            Dcs::D712N => 0o712,
            Dcs::D723N => 0o723,
            Dcs::D731N => 0o731,
            Dcs::D732N => 0o732,
            Dcs::D734N => 0o734,
            Dcs::D743N => 0o743,
            Dcs::D754N => 0o754,
            Dcs::D023I => 0o023,
            Dcs::D025I => 0o025,
            Dcs::D026I => 0o026,
            Dcs::D031I => 0o031,
            Dcs::D032I => 0o032,
            Dcs::D036I => 0o036,
            Dcs::D043I => 0o043,
            Dcs::D047I => 0o047,
            Dcs::D051I => 0o051,
            Dcs::D053I => 0o053,
            Dcs::D054I => 0o054,
            Dcs::D065I => 0o065,
            Dcs::D071I => 0o071,
            Dcs::D072I => 0o072,
            Dcs::D073I => 0o073,
            Dcs::D074I => 0o074,
            Dcs::D114I => 0o114,
            Dcs::D115I => 0o115,
            Dcs::D116I => 0o116,
            Dcs::D122I => 0o122,
            Dcs::D125I => 0o125,
            Dcs::D131I => 0o131,
            Dcs::D132I => 0o132,
            Dcs::D134I => 0o134,
            Dcs::D143I => 0o143,
            Dcs::D145I => 0o145,
            Dcs::D152I => 0o152,
            Dcs::D155I => 0o155,
            Dcs::D156I => 0o156,
            Dcs::D162I => 0o162,
            Dcs::D165I => 0o165,
            Dcs::D172I => 0o172,
            Dcs::D174I => 0o174,
            Dcs::D205I => 0o205,
            Dcs::D212I => 0o212,
            Dcs::D223I => 0o223,
            Dcs::D225I => 0o225,
            Dcs::D226I => 0o226,
            Dcs::D243I => 0o243,
            Dcs::D244I => 0o244,
            Dcs::D245I => 0o245,
            Dcs::D246I => 0o246,
            Dcs::D251I => 0o251,
            Dcs::D252I => 0o252,
            Dcs::D255I => 0o255,
            Dcs::D261I => 0o261,
            Dcs::D263I => 0o263,
            Dcs::D265I => 0o265,
            Dcs::D266I => 0o266,
            Dcs::D271I => 0o271,
            Dcs::D274I => 0o274,
            Dcs::D306I => 0o306,
            Dcs::D311I => 0o311,
            Dcs::D315I => 0o315,
            Dcs::D325I => 0o325,
            Dcs::D331I => 0o331,
            Dcs::D332I => 0o332,
            Dcs::D343I => 0o343,
            Dcs::D346I => 0o346,
            Dcs::D351I => 0o351,
            Dcs::D356I => 0o356,
            Dcs::D364I => 0o364,
            Dcs::D365I => 0o365,
            Dcs::D371I => 0o371,
            Dcs::D411I => 0o411,
            Dcs::D412I => 0o412,
            Dcs::D413I => 0o413,
            Dcs::D423I => 0o423,
            Dcs::D431I => 0o431,
            Dcs::D432I => 0o432,
            Dcs::D445I => 0o445,
            Dcs::D446I => 0o446,
            Dcs::D452I => 0o452,
            Dcs::D454I => 0o454,
            Dcs::D455I => 0o455,
            Dcs::D462I => 0o462,
            Dcs::D464I => 0o464,
            Dcs::D465I => 0o465,
            Dcs::D466I => 0o466,
            Dcs::D503I => 0o503,
            Dcs::D506I => 0o506,
            Dcs::D516I => 0o516,
            Dcs::D523I => 0o523,
            Dcs::D526I => 0o526,
            Dcs::D532I => 0o532,
            Dcs::D546I => 0o546,
            Dcs::D565I => 0o565,
            Dcs::D606I => 0o606,
            Dcs::D612I => 0o612,
            Dcs::D624I => 0o624,
            Dcs::D627I => 0o627,
            Dcs::D631I => 0o631,
            Dcs::D632I => 0o632,
            Dcs::D654I => 0o654,
            Dcs::D662I => 0o662,
            Dcs::D664I => 0o664,
            Dcs::D703I => 0o703,
            Dcs::D712I => 0o712,
            Dcs::D723I => 0o723,
            Dcs::D731I => 0o731,
            Dcs::D732I => 0o732,
            Dcs::D734I => 0o734,
            Dcs::D743I => 0o743,
            Dcs::D754I => 0o754,
    }
}

/// Whether a code has inverted polarity (its name ends in `I`).
pub open spec fn is_inverted(code: Dcs) -> bool {
    match code {
            Dcs::D023N => false,
            Dcs::D025N => false,
            Dcs::D026N => false,
            Dcs::D031N => false,
            Dcs::D032N => false,
            Dcs::D036N => false,
            Dcs::D043N => false,
            Dcs::D047N => false,
            Dcs::D051N => false,
            Dcs::D053N => false,
            Dcs::D054N => false,
            Dcs::D065N => false,
            Dcs::D071N => false,
            Dcs::D072N => false,
            Dcs::D073N => false,
            Dcs::D074N => false,
            Dcs::D114N => false,
            Dcs::D115N => false,
            Dcs::D116N => false,
            Dcs::D122N => false,
            Dcs::D125N => false,
            Dcs::D131N => false,
            Dcs::D132N => false,
            Dcs::D134N => false,
            Dcs::D143N => false,
            Dcs::D145N => false,
            Dcs::D152N => false,
            Dcs::D155N => false,
            Dcs::D156N => false,
            Dcs::D162N => false,
            Dcs::D165N => false,
            Dcs::D172N => false,
            Dcs::D174N => false,
            Dcs::D205N => false,
            Dcs::D212N => false,
            Dcs::D223N => false,
            Dcs::D225N => false,
            Dcs::D226N => false,
            Dcs::D243N => false,
            Dcs::D244N => false,
            Dcs::D245N => false,
            Dcs::D246N => false,
            Dcs::D251N => false,
            Dcs::D252N => false,
            Dcs::D255N => false,
            Dcs::D261N => false,
            Dcs::D263N => false,
            Dcs::D265N => false,
            Dcs::D266N => false,
            Dcs::D271N => false,
            Dcs::D274N => false,
            Dcs::D306N => false,
            Dcs::D311N => false,
            Dcs::D315N => false,
            Dcs::D325N => false,
            Dcs::D331N => false,
            Dcs::D332N => false,
            Dcs::D343N => false,
            Dcs::D346N => false,
            Dcs::D351N => false,
            Dcs::D356N => false,
            Dcs::D364N => false,
            Dcs::D365N => false,
            Dcs::D371N => false,
            Dcs::D411N => false,
            Dcs::D412N => false,
            Dcs::D413N => false,
            Dcs::D423N => false,
            Dcs::D431N => false,
            Dcs::D432N => false,
            Dcs::D445N => false,
            Dcs::D446N => false,
            Dcs::D452N => false,
            Dcs::D454N => false,
            Dcs::D455N => false,
            Dcs::D462N => false,
            Dcs::D464N => false,
            Dcs::D465N => false,
            Dcs::D466N => false,
            Dcs::D503N => false,
            Dcs::D506N => false,
            Dcs::D516N => false,
            Dcs::D523N => false,
            Dcs::D526N => false,
            Dcs::D532N => false,
            Dcs::D546N => false,
            Dcs::D565N => false,
            Dcs::D606N => false,
            Dcs::D612N => false,
            Dcs::D624N => false,
            Dcs::D627N => false,
            Dcs::D631N => false,
            Dcs::D632N => false,
            Dcs::D654N => false,
            Dcs::D662N => false,
            Dcs::D664N => false,
            Dcs::D703N => false,
            Dcs::D712N => false,
            Dcs::D723N => false,
            Dcs::D731N => false,
            Dcs::D732N => false,
            Dcs::D734N => false,
            Dcs::D743N => false,
            Dcs::D754N => false,
            Dcs::D023I => true,
            Dcs::D025I => true,
            Dcs::D026I => true,
            Dcs::D031I => true,
            Dcs::D032I => true,
            Dcs::D036I => true,
            Dcs::D043I => true,
            Dcs::D047I => true,
            Dcs::D051I => true,
            Dcs::D053I => true,
            Dcs::D054I => true,
            Dcs::D065I => true,
            Dcs::D071I => true,
            Dcs::D072I => true,
            Dcs::D073I => true,
            Dcs::D074I => true,
            Dcs::D114I => true,
            Dcs::D115I => true,
            Dcs::D116I => true,
            Dcs::D122I => true,
            Dcs::D125I => true,
            Dcs::D131I => true,
            Dcs::D132I => true,
            Dcs::D134I => true,
            Dcs::D143I => true,
            Dcs::D145I => true,
            Dcs::D152I => true,
            Dcs::D155I => true,
            Dcs::D156I => true,
            Dcs::D162I => true,
            Dcs::D165I => true,
            Dcs::D172I => true,
            Dcs::D174I => true,
            Dcs::D205I => true,
            Dcs::D212I => true,
            Dcs::D223I => true,
            Dcs::D225I => true,
            Dcs::D226I => true,
            Dcs::D243I => true,
            Dcs::D244I => true,
            Dcs::D245I => true,
            Dcs::D246I => true,
            Dcs::D251I => true,
            Dcs::D252I => true,
            Dcs::D255I => true,
            Dcs::D261I => true,
            Dcs::D263I => true,
            Dcs::D265I => true,
            Dcs::D266I => true,
            Dcs::D271I => true,
            Dcs::D274I => true,
            Dcs::D306I => true,
            Dcs::D311I => true,
            Dcs::D315I => true,
            Dcs::D325I => true,
            Dcs::D331I => true,
            Dcs::D332I => true,
            Dcs::D343I => true,
            Dcs::D346I => true,
            Dcs::D351I => true,
            Dcs::D356I => true,
            Dcs::D364I => true,
            Dcs::D365I => true,
            Dcs::D371I => true,
            Dcs::D411I => true,
            Dcs::D412I => true,
            Dcs::D413I => true,
            Dcs::D423I => true,
            Dcs::D431I => true,
            Dcs::D432I => true,
            Dcs::D445I => true,
            Dcs::D446I => true,
            Dcs::D452I => true,
            Dcs::D454I => true,
            Dcs::D455I => true,
            Dcs::D462I => true,
            Dcs::D464I => true,
            Dcs::D465I => true,
            Dcs::D466I => true,
            Dcs::D503I => true,
            Dcs::D506I => true,
            Dcs::D516I => true,
            Dcs::D523I => true,
            Dcs::D526I => true,
            Dcs::D532I => true,
            Dcs::D546I => true,
            Dcs::D565I => true,
            Dcs::D606I => true,
            Dcs::D612I => true,
            Dcs::D624I => true,
            Dcs::D627I => true,
            Dcs::D631I => true,
            Dcs::D632I => true,
            Dcs::D654I => true,
            Dcs::D662I => true,
            Dcs::D664I => true,
            Dcs::D703I => true,
            Dcs::D712I => true,
            Dcs::D723I => true,
            Dcs::D731I => true,
            Dcs::D732I => true,
            Dcs::D734I => true,
            Dcs::D743I => true,
            Dcs::D754I => true,
    }
}

/// The radio stores a code as the low eight bits of its number, then `0x80`, plus
/// `0x40` for inverted polarity, plus the ninth bit of the number.
#[verifier::rlimit(100)]
pub proof fn lemma_dcs_code_is_octal(code: Dcs)
    ensures
        code.code() == (
            (code_number(code) % 256) as u8,
            (0x80 + (if is_inverted(code) {
                0x40nat
            } else {
                0
            }) + code_number(code) / 256) as u8,
        ),
        code_number(code) < 0o1000,
{
}

} // verus!
