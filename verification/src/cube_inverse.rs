//! The cubic extension is a field: the cubic `x^3 - x - 1` has no root in
//! the base field, the norm of an element other than zero is not zero, and
//! an element multiplied by its inverse is one.

use crate::cube::{
    cube_adjugate, cube_adjugate_integers, cube_at, cube_inv, cube_mul, cube_norm,
    cube_norm_integer, cube_product, cube_scale, cubic, cubic_form, lemma_cube_mul_congruent,
    CubeValue,
};
use crate::cube_identities::{
    lemma_adjugate_cubic_form, lemma_adjugate_minor, lemma_adjugate_rows,
    lemma_cubic_has_no_common_root, lemma_cubic_times_cube, lemma_product_of_evaluations,
};
use crate::fermat::{lemma_fermat, lemma_inverse, lemma_no_zero_divisors};
use crate::modular::{
    congruent, inv_mod, lemma_add_congruent, lemma_congruent_by_multiple, lemma_mul_congruent,
    lemma_mul_mod_reduce, lemma_residue_congruent, lemma_sub_congruent, modulus,
};
use vstd::arithmetic::div_mod::lemma_fundamental_div_mod_converse;
use vstd::arithmetic::mul::{lemma_mul_is_associative, lemma_mul_is_commutative};
use vstd::arithmetic::power::{lemma_pow1, lemma_pow_adds, pow};
use vstd::prelude::*;

verus! {

/// Whether `r` is a root of the cubic in the base field.
#[verifier::opaque]
pub open spec fn is_root(r: int) -> bool {
    cubic(r) % modulus() == 0
}

/// Whether the power of `r` at `e` is congruent to the value at `r` of the
/// polynomial with coefficients `t`.
#[verifier::opaque]
pub open spec fn power_is(r: int, e: nat, t: CubeValue) -> bool {
    congruent(pow(r, e), cube_at(t, r))
}

/// At a root of the cubic, the value of a product in the extension is the
/// product of the values.
#[verifier::rlimit(40)]
pub proof fn lemma_product_at_root(p: CubeValue, q: CubeValue, r: int)
    requires
        is_root(r),
    ensures
        congruent(cube_at(cube_mul(p, q), r), cube_at(p, r) * cube_at(q, r)),
{
    reveal(is_root);
    let c = cube_product(p, q);
    let w = p.1 * q.2 + p.2 * q.1 + p.2 * q.2 * r;
    lemma_product_of_evaluations(p, q, r);
    lemma_mul_congruent(w, cubic(r), w, 0);
    assert(w * 0 == 0);
    lemma_residue_congruent(c.0);
    lemma_residue_congruent(c.1);
    lemma_residue_congruent(c.2);
    lemma_mul_congruent(c.1 % modulus(), r, c.1, r);
    lemma_mul_congruent(c.2 % modulus(), r * r, c.2, r * r);
    lemma_add_congruent(c.0 % modulus(), (c.1 % modulus()) * r, c.0, c.1 * r);
    lemma_add_congruent(
        c.0 % modulus() + (c.1 % modulus()) * r,
        (c.2 % modulus()) * (r * r),
        c.0 + c.1 * r,
        c.2 * (r * r),
    );
    lemma_add_congruent(cube_at(c, r), w * cubic(r), cube_at(c, r), 0);
}

/// One multiplication in the computation of a power of a root: from the
/// powers at `e1` and `e2`, given as values of polynomials, to the power at
/// `e1 + e2`. The product of the polynomials is given by its reduced
/// coordinates `w` and the multiples `k` of the modulus that were taken off.
proof fn lemma_root_power_step(
    r: int,
    e1: nat,
    t1: CubeValue,
    e2: nat,
    t2: CubeValue,
    k: CubeValue,
    w: CubeValue,
)
    requires
        is_root(r),
        power_is(r, e1, t1),
        power_is(r, e2, t2),
        cube_product(t1, t2) == (
            w.0 + k.0 * modulus(),
            w.1 + k.1 * modulus(),
            w.2 + k.2 * modulus(),
        ),
        0 <= w.0 < modulus(),
        0 <= w.1 < modulus(),
        0 <= w.2 < modulus(),
    ensures
        power_is(r, e1 + e2, w),
{
    reveal(power_is);
    let p = cube_product(t1, t2);
    lemma_fundamental_div_mod_converse(p.0, modulus(), k.0, w.0);
    lemma_fundamental_div_mod_converse(p.1, modulus(), k.1, w.1);
    lemma_fundamental_div_mod_converse(p.2, modulus(), k.2, w.2);
    assert(cube_mul(t1, t2) == w);
    lemma_pow_adds(r, e1, e2);
    lemma_mul_congruent(pow(r, e1), pow(r, e2), cube_at(t1, r), cube_at(t2, r));
    lemma_product_at_root(t1, t2, r);
}

/// Part 1 of the computation of the power of a root of the cubic at
/// `M - 1`: from the exponent 1 to the exponent 120.
#[verifier::rlimit(40)]
proof fn lemma_root_power_1(r: int)
    requires
        is_root(r),
        power_is(r, 1, (0, 1, 0)),
    ensures
        power_is(r, 15, (12, 21, 16)),
        power_is(r, 120, (79947654422626, 140298353215075, 105908093453250)),
{
    lemma_root_power_step(
        r,
        1,
        (0, 1, 0),
        1,
        (0, 1, 0),
        (0, 0, 0),
        (0, 0, 1),
    );
    lemma_root_power_step(
        r,
        2,
        (0, 0, 1),
        1,
        (0, 1, 0),
        (0, 0, 0),
        (1, 1, 0),
    );
    lemma_root_power_step(
        r,
        3,
        (1, 1, 0),
        3,
        (1, 1, 0),
        (0, 0, 0),
        (1, 2, 1),
    );
    lemma_root_power_step(
        r,
        6,
        (1, 2, 1),
        6,
        (1, 2, 1),
        (0, 0, 0),
        (5, 9, 7),
    );
    lemma_root_power_step(
        r,
        12,
        (5, 9, 7),
        3,
        (1, 1, 0),
        (0, 0, 0),
        (12, 21, 16),
    );
    lemma_root_power_step(
        r,
        15,
        (12, 21, 16),
        15,
        (12, 21, 16),
        (0, 0, 0),
        (816, 1432, 1081),
    );
    lemma_root_power_step(
        r,
        30,
        (816, 1432, 1081),
        30,
        (816, 1432, 1081),
        (0, 0, 0),
        (3761840, 6601569, 4983377),
    );
    lemma_root_power_step(
        r,
        60,
        (3761840, 6601569, 4983377),
        60,
        (3761840, 6601569, 4983377),
        (0, 0, 0),
        (79947654422626, 140298353215075, 105908093453250),
    );
}

/// Part 2 of the computation of the power of a root of the cubic at
/// `M - 1`: from the exponent 120 to the exponent 16320.
#[verifier::rlimit(40)]
proof fn lemma_root_power_2(r: int)
    requires
        is_root(r),
        power_is(r, 15, (12, 21, 16)),
        power_is(r, 120, (79947654422626, 140298353215075, 105908093453250)),
    ensures
        power_is(r, 255, (10631063647363966784, 15354445961624571197, 17372766340139064469)),
        power_is(r, 16320, (12094145270838400600, 16629861341913845495, 3992817318765355094)),
{
    lemma_root_power_step(
        r,
        120,
        (79947654422626, 140298353215075, 105908093453250),
        120,
        (79947654422626, 140298353215075, 105908093453250),
        (1957477672, 3435133850, 2593105824),
        (17980645091317442664, 8852699638453258050, 5447082384365101621),
    );
    lemma_root_power_step(
        r,
        240,
        (17980645091317442664, 8852699638453258050, 5447082384365101621),
        15,
        (12, 21, 16),
        (25, 44, 33),
        (10631063647363966784, 15354445961624571197, 17372766340139064469),
    );
    lemma_root_power_step(
        r,
        255,
        (10631063647363966784, 15354445961624571197, 17372766340139064469),
        255,
        (10631063647363966784, 15354445961624571197, 17372766340139064469),
        (35047806582487717267, 62980198264831915609, 49166074352757151281),
        (11642382840603130735, 3509459721280925154, 8005352931033794961),
    );
    lemma_root_power_step(
        r,
        510,
        (11642382840603130735, 3509459721280925154, 8005352931033794961),
        510,
        (11642382840603130735, 3509459721280925154, 8005352931033794961),
        (10393921269676811130, 10949983877923560334, 14246674062981373156),
        (8722407100972045483, 11182464282885782675, 14105383511345480831),
    );
    lemma_root_power_step(
        r,
        1020,
        (8722407100972045483, 11182464282885782675, 14105383511345480831),
        1020,
        (8722407100972045483, 11182464282885782675, 14105383511345480831),
        (21225766389220969458, 38462275385356154224, 30903835598171902852),
        (6565031480602841121, 9690366200055748557, 16905547949217495440),
    );
    lemma_root_power_step(
        r,
        2040,
        (6565031480602841121, 9690366200055748557, 16905547949217495440),
        2040,
        (6565031480602841121, 9690366200055748557, 16905547949217495440),
        (20097939117453694324, 40152048940510233338, 32616685917976005713),
        (5862177410779602797, 8957242047494685056, 4368008315936126456),
    );
    lemma_root_power_step(
        r,
        4080,
        (5862177410779602797, 8957242047494685056, 4368008315936126456),
        4080,
        (5862177410779602797, 8957242047494685056, 4368008315936126456),
        (6104911472415066676, 10969306853106081082, 8159909441939110842),
        (14740604449669919285, 13223606222473490950, 17945842937365129654),
    );
    lemma_root_power_step(
        r,
        8160,
        (14740604449669919285, 13223606222473490950, 17945842937365129654),
        8160,
        (14740604449669919285, 13223606222473490950, 17945842937365129654),
        (37508133554960381225, 64321307455843654001, 55618605695947154062),
        (12094145270838400600, 16629861341913845495, 3992817318765355094),
    );
}

/// Part 3 of the computation of the power of a root of the cubic at
/// `M - 1`: from the exponent 16320 to the exponent 2097120.
#[verifier::rlimit(40)]
proof fn lemma_root_power_3(r: int)
    requires
        is_root(r),
        power_is(r, 255, (10631063647363966784, 15354445961624571197, 17372766340139064469)),
        power_is(r, 16320, (12094145270838400600, 16629861341913845495, 3992817318765355094)),
    ensures
        power_is(r, 65535, (8218110925392235342, 6124110923987225995, 385693368393256935)),
        power_is(r, 2097120, (12639928331275581530, 2577871724065740215, 15996893937336685645)),
{
    lemma_root_power_step(
        r,
        16320,
        (12094145270838400600, 16629861341913845495, 3992817318765355094),
        16320,
        (12094145270838400600, 16629861341913845495, 3992817318765355094),
        (15128325385300331234, 29869255117488599535, 21091760275654756044),
        (14075926751811780946, 2638313285537855161, 4352873181766470537),
    );
    lemma_root_power_step(
        r,
        32640,
        (14075926751811780946, 2638313285537855161, 4352873181766470537),
        32640,
        (14075926751811780946, 2638313285537855161, 4352873181766470537),
        (11985865873229903636, 6298640014838475868, 8047471656977343218),
        (16330877276621946674, 5814289968654310267, 14443460011098895316),
    );
    lemma_root_power_step(
        r,
        65280,
        (16330877276621946674, 5814289968654310267, 14443460011098895316),
        255,
        (10631063647363966784, 15354445961624571197, 17372766340139064469),
        (26909693178139291469, 48044692290971160990, 42146186440366397158),
        (8218110925392235342, 6124110923987225995, 385693368393256935),
    );
    lemma_root_power_step(
        r,
        65535,
        (8218110925392235342, 6124110923987225995, 385693368393256935),
        65535,
        (8218110925392235342, 6124110923987225995, 385693368393256935),
        (3917298621995660359, 5720796185178030035, 2384856405415845184),
        (12312375245523276375, 2853122117199794220, 4659076516666767726),
    );
    lemma_root_power_step(
        r,
        131070,
        (12312375245523276375, 2853122117199794220, 4659076516666767726),
        131070,
        (12312375245523276375, 2853122117199794220, 4659076516666767726),
        (9659179529294854942, 6426621538708519702, 7837475058004206924),
        (9877145471185263683, 2249364476716211174, 9902538481307127372),
    );
    lemma_root_power_step(
        r,
        262140,
        (9877145471185263683, 2249364476716211174, 9902538481307127372),
        262140,
        (9877145471185263683, 2249364476716211174, 9902538481307127372),
        (7703627193099583715, 10139659582024252468, 16194594234435151274),
        (791602526708101430, 18230245886790569296, 3024927831104171858),
    );
    lemma_root_power_step(
        r,
        524280,
        (791602526708101430, 18230245886790569296, 3024927831104171858),
        524280,
        (791602526708101430, 18230245886790569296, 3024927831104171858),
        (6012822124303529984, 8039508844485861258, 18771937920405369695),
        (7248626995732407972, 9136107909158566842, 10568194660252669565),
    );
    lemma_root_power_step(
        r,
        1048560,
        (7248626995732407972, 9136107909158566842, 10568194660252669565),
        1048560,
        (7248626995732407972, 9136107909158566842, 10568194660252669565),
        (13316546597113375834, 23702803444678290758, 18884904946630153224),
        (12639928331275581530, 2577871724065740215, 15996893937336685645),
    );
}

/// Part 4 of the computation of the power of a root of the cubic at
/// `M - 1`: from the exponent 2097120 to the exponent 536862720.
#[verifier::rlimit(40)]
proof fn lemma_root_power_4(r: int)
    requires
        is_root(r),
        power_is(r, 2097120, (12639928331275581530, 2577871724065740215, 15996893937336685645)),
    ensures
        power_is(r, 536862720, (9244535892653028717, 7505875403839460943, 493365972571205970)),
{
    lemma_root_power_step(
        r,
        2097120,
        (12639928331275581530, 2577871724065740215, 15996893937336685645),
        2097120,
        (12639928331275581530, 2577871724065740215, 15996893937336685645),
        (13132055630853051482, 21876203351148312199, 36155173050612384100),
        (12773823225613554528, 12449316430674519396, 2525325153483889850),
    );
    lemma_root_power_step(
        r,
        4194240,
        (12773823225613554528, 12449316430674519396, 2525325153483889850),
        4194240,
        (12773823225613554528, 12449316430674519396, 2525325153483889850),
        (12254070572060757425, 20995854024745530301, 12244917589115042527),
        (13940314100745030559, 9370601334292323255, 12338836887612289749),
    );
    lemma_root_power_step(
        r,
        8388480,
        (13940314100745030559, 9370601334292323255, 12338836887612289749),
        8388480,
        (13940314100745030559, 9370601334292323255, 12338836887612289749),
        (23070575405141766315, 34951956179587426932, 31662475860772733836),
        (16191637269260531356, 9909707395014474909, 1020696225367372052),
    );
    lemma_root_power_step(
        r,
        16776960,
        (16191637269260531356, 9909707395014474909, 1020696225367372052),
        16776960,
        (16191637269260531356, 9909707395014474909, 1020696225367372052),
        (15308865253500614232, 18549625697153036457, 7171867676374504555),
        (10566376567046228800, 8696288940360279751, 6098675303663291854),
    );
    lemma_root_power_step(
        r,
        33553920,
        (10566376567046228800, 8696288940360279751, 6098675303663291854),
        33553920,
        (10566376567046228800, 8696288940360279751, 6098675303663291854),
        (11802624795223496599, 17728985222347401567, 13102641882032586567),
        (10824687464206112429, 1663386088918680617, 17392215470730353710),
    );
    lemma_root_power_step(
        r,
        67107840,
        (10824687464206112429, 1663386088918680617, 17392215470730353710),
        67107840,
        (10824687464206112429, 1663386088918680617, 17392215470730353710),
        (9488601163331150289, 21486738533234008823, 36959725968829478536),
        (2047807997536339412, 12911361273471555443, 7030257196525153913),
    );
    lemma_root_power_step(
        r,
        134215680,
        (2047807997536339412, 12911361273471555443, 7030257196525153913),
        134215680,
        (2047807997536339412, 12911361273471555443, 7030257196525153913),
        (10068654821435233235, 15387261510785023419, 13277194017834641624),
        (14159316387831194227, 16307909864427834020, 11343743606013598826),
    );
    lemma_root_power_step(
        r,
        268431360,
        (14159316387831194227, 16307909864427834020, 11343743606013598826),
        268431360,
        (14159316387831194227, 16307909864427834020, 11343743606013598826),
        (30925334841104448012, 52067927146283029693, 38807268639465804510),
        (9244535892653028717, 7505875403839460943, 493365972571205970),
    );
}

/// Part 5 of the computation of the power of a root of the cubic at
/// `M - 1`: from the exponent 536862720 to the exponent 68719476720.
#[verifier::rlimit(40)]
proof fn lemma_root_power_5(r: int)
    requires
        is_root(r),
        power_is(r, 65535, (8218110925392235342, 6124110923987225995, 385693368393256935)),
        power_is(r, 536862720, (9244535892653028717, 7505875403839460943, 493365972571205970)),
    ensures
        power_is(r, 68719476720, (14292518544408152065, 13269242333066123618, 7030524943306024153)),
{
    lemma_root_power_step(
        r,
        536862720,
        (9244535892653028717, 7505875403839460943, 493365972571205970),
        536862720,
        (9244535892653028717, 7505875403839460943, 493365972571205970),
        (5034369781372720456, 7937789217558978321, 3561791403236767404),
        (4163549627499955133, 6470241122102795541, 2933781512027498445),
    );
    lemma_root_power_step(
        r,
        1073725440,
        (4163549627499955133, 6470241122102795541, 2933781512027498445),
        1073725440,
        (4163549627499955133, 6470241122102795541, 2933781512027498445),
        (2997802368663775310, 5445403328339483329, 4060390478653076829),
        (12561366561881000669, 8825374571838924812, 7562324918469638967),
    );
    lemma_root_power_step(
        r,
        2147450880,
        (12561366561881000669, 8825374571838924812, 7562324918469638967),
        2147450880,
        (12561366561881000669, 8825374571838924812, 7562324918469638967),
        (15789704073781151326, 22355543438188461184, 17621660711747050796),
        (11110273487887186323, 416750238743427889, 8691879359732830763),
    );
    lemma_root_power_step(
        r,
        4294901760,
        (11110273487887186323, 416750238743427889, 8691879359732830763),
        65535,
        (8218110925392235342, 6124110923987225995, 385693368393256935),
        (7843998405935056367, 6950203125906070746, 4424662267995650184),
        (18257467011001150059, 13756005300681981762, 4313033625783026847),
    );
    lemma_root_power_step(
        r,
        4294967295,
        (18257467011001150059, 13756005300681981762, 4313033625783026847),
        4294967295,
        (18257467011001150059, 13756005300681981762, 4313033625783026847),
        (24502715861050130075, 34670731563672105375, 19804041179027646283),
        (17014327679150878234, 12607646404735112778, 719963853502925156),
    );
    lemma_root_power_step(
        r,
        8589934590,
        (17014327679150878234, 12607646404735112778, 719963853502925156),
        8589934590,
        (17014327679150878234, 12607646404735112778, 719963853502925156),
        (16677276195418784979, 24269524206009797796, 9973060664049494651),
        (6536060914437731233, 14802847150513102660, 4569251470381443657),
    );
    lemma_root_power_step(
        r,
        17179869180,
        (6536060914437731233, 14802847150513102660, 4569251470381443657),
        17179869180,
        (6536060914437731233, 14802847150513102660, 4569251470381443657),
        (9649180030040764161, 18955027579186029138, 16248512665473521432),
        (4911856645428035848, 14708006208730003151, 9714945969397219739),
    );
    lemma_root_power_step(
        r,
        34359738360,
        (4911856645428035848, 14708006208730003151, 9714945969397219739),
        34359738360,
        (4911856645428035848, 14708006208730003151, 9714945969397219739),
        (16799783517884089577, 28440920552674705937, 22017027185695259153),
        (14292518544408152065, 13269242333066123618, 7030524943306024153),
    );
}

/// Part 6 of the computation of the power of a root of the cubic at
/// `M - 1`: from the exponent 68719476720 to the exponent 17592186040320.
#[verifier::rlimit(40)]
proof fn lemma_root_power_6(r: int)
    requires
        is_root(r),
        power_is(r, 68719476720, (14292518544408152065, 13269242333066123618, 7030524943306024153)),
    ensures
        power_is(
            r,
            17592186040320,
            (13629797061167796708, 6319691714332995199, 18186267925883894336),
        ),
{
    lemma_root_power_step(
        r,
        68719476720,
        (14292518544408152065, 13269242333066123618, 7030524943306024153),
        68719476720,
        (14292518544408152065, 13269242333066123618, 7030524943306024153),
        (21188322626164244655, 33355997204548902076, 23118924820854160796),
        (14349349722776201078, 4079828368592850461, 10033683277415949707),
    );
    lemma_root_power_step(
        r,
        137438953440,
        (14349349722776201078, 4079828368592850461, 10033683277415949707),
        137438953440,
        (14349349722776201078, 4079828368592850461, 10033683277415949707),
        (15600327501536409252, 16243082165450381623, 21969918312633614451),
        (2391313368065354046, 15835810848328576636, 4870656255852043891),
    );
    lemma_root_power_step(
        r,
        274877906880,
        (2391313368065354046, 15835810848328576636, 4870656255852043891),
        274877906880,
        (2391313368065354046, 15835810848328576636, 4870656255852043891),
        (8672531118342099440, 13754278050871774737, 16143267738624970398),
        (8292492632139951228, 17245460825811921168, 18423858443108432591),
    );
    lemma_root_power_step(
        r,
        549755813760,
        (8292492632139951228, 17245460825811921168, 18423858443108432591),
        549755813760,
        (8292492632139951228, 17245460825811921168, 18423858443108432591),
        (38175912751106191643, 68354075220027803397, 51087817788884805475),
        (14796088139877651157, 1693463098193796028, 14062111816298843526),
    );
    lemma_root_power_step(
        r,
        1099511627520,
        (14796088139877651157, 1693463098193796028, 14062111816298843526),
        1099511627520,
        (14796088139877651157, 1693463098193796028, 14062111816298843526),
        (14449788977781447576, 16018197088568069163, 33433504330726781566),
        (841263094355012209, 8109473162865757601, 16373445232156981938),
    );
    lemma_root_power_step(
        r,
        2199023255040,
        (841263094355012209, 8109473162865757601, 16373445232156981938),
        2199023255040,
        (841263094355012209, 8109473162865757601, 16373445232156981938),
        (14434403815634038587, 29668874738642929357, 19591642448784015730),
        (13478154773546286730, 16903680727800946941, 5561652030637103799),
    );
    lemma_root_power_step(
        r,
        4398046510080,
        (13478154773546286730, 16903680727800946941, 5561652030637103799),
        4398046510080,
        (13478154773546286730, 16903680727800946941, 5561652030637103799),
        (20040687679006299289, 36571093600322029334, 25293786666776046930),
        (5477011168738302849, 10165165692343603765, 17166566317511879892),
    );
    lemma_root_power_step(
        r,
        8796093020160,
        (5477011168738302849, 10165165692343603765, 17166566317511879892),
        8796093020160,
        (5477011168738302849, 10165165692343603765, 17166566317511879892),
        (20545611295334565093, 40930932327278921795, 31770622576037640689),
        (13629797061167796708, 6319691714332995199, 18186267925883894336),
    );
}

/// Part 7 of the computation of the power of a root of the cubic at
/// `M - 1`: from the exponent 17592186040320 to the exponent 4503599626321920.
#[verifier::rlimit(40)]
proof fn lemma_root_power_7(r: int)
    requires
        is_root(r),
        power_is(
            r,
            17592186040320,
            (13629797061167796708, 6319691714332995199, 18186267925883894336),
        ),
    ensures
        power_is(
            r,
            4503599626321920,
            (325843287025805937, 941189506340762823, 4936306696661642492),
        ),
{
    lemma_root_power_step(
        r,
        17592186040320,
        (13629797061167796708, 6319691714332995199, 18186267925883894336),
        17592186040320,
        (13629797061167796708, 6319691714332995199, 18186267925883894336),
        (22531595809878082374, 39729275956610200710, 46969217084355843260),
        (17188729530031364938, 5598299681150408498, 4423674743041695813),
    );
    lemma_root_power_step(
        r,
        35184372080640,
        (17188729530031364938, 5598299681150408498, 4423674743041695813),
        35184372080640,
        (17188729530031364938, 5598299681150408498, 4423674743041695813),
        (18701540790362758298, 14178888651009665225, 11003814774158407830),
        (16393786127884735934, 17655134797719117740, 3870802745629922731),
    );
    lemma_root_power_step(
        r,
        70368744161280,
        (16393786127884735934, 17655134797719117740, 3870802745629922731),
        70368744161280,
        (16393786127884735934, 17655134797719117740, 3870802745629922731),
        (21978692314488633625, 39602176270843687033, 24589766173612653492),
        (1810135185655154611, 14067342876410122968, 9257028593542338537),
    );
    lemma_root_power_step(
        r,
        140737488322560,
        (1810135185655154611, 14067342876410122968, 9257028593542338537),
        140737488322560,
        (1810135185655154611, 14067342876410122968, 9257028593542338537),
        (14296299600740401572, 21524869212162134303, 17189790194654330818),
        (10629920536230044341, 8385338063830083634, 367283264183613029),
    );
    lemma_root_power_step(
        r,
        281474976645120,
        (10629920536230044341, 8385338063830083634, 367283264183613029),
        281474976645120,
        (10629920536230044341, 8385338063830083634, 367283264183613029),
        (6459394613430004933, 10005312566176759826, 4242329972785736036),
        (10042142244375803560, 7072582969817231855, 9357497855393547019),
    );
    lemma_root_power_step(
        r,
        562949953290240,
        (10042142244375803560, 7072582969817231855, 9357497855393547019),
        562949953290240,
        (10042142244375803560, 7072582969817231855, 9357497855393547019),
        (12642229974191505240, 19622644144246892158, 17646628791743258878),
        (59770504549512050, 7971993996122119733, 6342428284262850828),
    );
    lemma_root_power_step(
        r,
        1125899906580480,
        (59770504549512050, 7971993996122119733, 6342428284262850828),
        1125899906580480,
        (59770504549512050, 7971993996122119733, 6342428284262850828),
        (5482115030090540352, 7714259850861495996, 5666976497266546802),
        (2622868630606559356, 2445845814755350016, 7294939645723340231),
    );
    lemma_root_power_step(
        r,
        2251799813160960,
        (2622868630606559356, 2445845814755350016, 7294939645723340231),
        2251799813160960,
        (2622868630606559356, 2445845814755350016, 7294939645723340231),
        (2307400964420781471, 5514848787425583082, 5283623090091871357),
        (325843287025805937, 941189506340762823, 4936306696661642492),
    );
}

/// Part 8 of the computation of the power of a root of the cubic at
/// `M - 1`: from the exponent 4503599626321920 to the exponent 1152921504338411520.
#[verifier::rlimit(40)]
proof fn lemma_root_power_8(r: int)
    requires
        is_root(r),
        power_is(
            r,
            4503599626321920,
            (325843287025805937, 941189506340762823, 4936306696661642492),
        ),
    ensures
        power_is(
            r,
            1152921504338411520,
            (3412694788194576059, 9438949368517925696, 2618429826639837760),
        ),
{
    lemma_root_power_step(
        r,
        4503599626321920,
        (325843287025805937, 941189506340762823, 4936306696661642492),
        4503599626321920,
        (325843287025805937, 941189506340762823, 4936306696661642492),
        (509476032100291556, 1857915107696830264, 1543355628659269701),
        (5709830688519504325, 5294837087033189454, 13789788311344091380),
    );
    lemma_root_power_step(
        r,
        9007199252643840,
        (5709830688519504325, 5294837087033189454, 13789788311344091380),
        9007199252643840,
        (5709830688519504325, 5294837087033189454, 13789788311344091380),
        (9683634736073563101, 21502595358079344575, 20365017968096433372),
        (10141470528471579244, 9885284929890285965, 17377392563805199104),
    );
    lemma_root_power_step(
        r,
        18014398505287680,
        (10141470528471579244, 9885284929890285965, 17377392563805199104),
        18014398505287680,
        (10141470528471579244, 9885284929890285965, 17377392563805199104),
        (24199955095791967289, 45863778147545843162, 40774526752601142461),
        (618545735250886487, 4730301220672711454, 4975800268008024812),
    );
    lemma_root_power_step(
        r,
        36028797010575360,
        (618545735250886487, 4730301220672711454, 4975800268008024812),
        36028797010575360,
        (618545735250886487, 4730301220672711454, 4975800268008024812),
        (2572631073059986757, 4211283653686877896, 2888848992285651445),
        (2750817074336557468, 17258942863299204220, 11170078648365466503),
    );
    lemma_root_power_step(
        r,
        72057594021150720,
        (2750817074336557468, 17258942863299204220, 11170078648365466503),
        72057594021150720,
        (2750817074336557468, 17258942863299204220, 11170078648365466503),
        (21311863569988468723, 32812866189344832292, 26242867038371150796),
        (6906452560844364261, 12864089469506070517, 3709527049109576701),
    );
    lemma_root_power_step(
        r,
        144115188042301440,
        (6906452560844364261, 12864089469506070517, 3709527049109576701),
        144115188042301440,
        (6906452560844364261, 12864089469506070517, 3709527049109576701),
        (7759551611664611102, 15552360506890227980, 12494602468376722181),
        (1328844093254793213, 16757782996432176529, 6187720237288532511),
    );
    lemma_root_power_step(
        r,
        288230376084602880,
        (1328844093254793213, 16757782996432176529, 6187720237288532511),
        288230376084602880,
        (1328844093254793213, 16757782996432176529, 6187720237288532511),
        (11338086103183071502, 15732304221429743646, 18190538254547296061),
        (8285684540255011865, 961706330252454747, 2301801694352089067),
    );
    lemma_root_power_step(
        r,
        576460752169205760,
        (8285684540255011865, 961706330252454747, 2301801694352089067),
        576460752169205760,
        (8285684540255011865, 961706330252454747, 2301801694352089067),
        (3961668386925725384, 1391161280826579281, 2405149405557378488),
        (3412694788194576059, 9438949368517925696, 2618429826639837760),
    );
}

/// Part 9 of the computation of the power of a root of the cubic at
/// `M - 1`: from the exponent 1152921504338411520 to the exponent 18446744069414584320.
#[verifier::rlimit(40)]
proof fn lemma_root_power_9(r: int)
    requires
        is_root(r),
        power_is(
            r,
            1152921504338411520,
            (3412694788194576059, 9438949368517925696, 2618429826639837760),
        ),
    ensures
        power_is(
            r,
            18446744069414584320,
            (17881315270014256396, 11746561000929144102, 10615703402128488253),
        ),
{
    lemma_root_power_step(
        r,
        1152921504338411520,
        (3412694788194576059, 9438949368517925696, 2618429826639837760),
        1152921504338411520,
        (3412694788194576059, 9438949368517925696, 2618429826639837760),
        (3310987489438829889, 6543763715270993566, 6170289084915366657),
        (13044716511520563032, 8154453814481524962, 396018648220892799),
    );
    lemma_root_power_step(
        r,
        2305843008676823040,
        (13044716511520563032, 8154453814481524962, 396018648220892799),
        2305843008676823040,
        (13044716511520563032, 8154453814481524962, 396018648220892799),
        (9574766135123366441, 11891558647416065907, 4173302859908349146),
        (10323009335397958739, 10652717226799117098, 13326952731142629115),
    );
    lemma_root_power_step(
        r,
        4611686017353646080,
        (10323009335397958739, 10652717226799117098, 13326952731142629115),
        4611686017353646080,
        (10323009335397958739, 10652717226799117098, 13326952731142629115),
        (21169103780527887288, 36943125744710470273, 30695745883040691527),
        (365860228024675213, 4999439635928348976, 8426174225170048632),
    );
    lemma_root_power_step(
        r,
        9223372034707292160,
        (365860228024675213, 4999439635928348976, 8426174225170048632),
        9223372034707292160,
        (365860228024675213, 4999439635928348976, 8426174225170048632),
        (4574582494884381597, 8614577321962153722, 5538127075898997299),
        (17881315270014256396, 11746561000929144102, 10615703402128488253),
    );
}

/// The cubic `x^3 - x - 1` has no root in the base field.
#[verifier::rlimit(40)]
pub proof fn lemma_cubic_has_no_root(r: int)
    ensures
        !is_root(r),
{
    if is_root(r) {
        reveal(is_root);
        reveal(power_is);
        if r % modulus() == 0 {
            lemma_mul_congruent(r, r, 0, 0);
            lemma_mul_congruent(r, r * r, 0, 0);
            lemma_sub_congruent(r * (r * r), r, 0, 0);
            lemma_sub_congruent(r * (r * r) - r, 1, 0, 1);
        } else {
            lemma_pow1(r);
            assert(r * 1 == r && 0 * (r * r) == 0);
            lemma_root_power_1(r);
            lemma_root_power_2(r);
            lemma_root_power_3(r);
            lemma_root_power_4(r);
            lemma_root_power_5(r);
            lemma_root_power_6(r);
            lemma_root_power_7(r);
            lemma_root_power_8(r);
            lemma_root_power_9(r);
            lemma_fermat(r);
            // the power of `x` at `M - 1` in the extension
            let power: CubeValue = (
                17881315270014256396,
                11746561000929144102,
                10615703402128488253,
            );
            let f = cubic(r);
            let g = 17881315270014256395 + 11746561000929144102 * r + 10615703402128488253
                * (r * r);
            let u = 3351938545640948259 + 2625504788725541602 * r;
            let v = 11086490780951302402 + 12077805972950442314 * r + 15238614666038134874 * (r
                * r);
            let k = 10746668146222514930 + 18767279218183345013 * r + 28842491316584702322 * (r * r)
                + 16654197702614836769 * (r * (r * r)) + 8769494114801794644 * (r * (r * (r * r)));
            assert(g == cube_at(power, r) - 1);
            lemma_sub_congruent(cube_at(power, r), 1, 1, 1);
            lemma_cubic_has_no_common_root(r);
            lemma_mul_congruent(u, f, u, 0);
            lemma_mul_congruent(v, g, v, 0);
            assert(u * 0 == 0 && v * 0 == 0);
            lemma_add_congruent(u * f, v * g, 0, 0);
            lemma_congruent_by_multiple(1 + modulus() * k, 1, k);
        }
    }
}

/// The product of an element and its adjugate lies in the base field.
pub proof fn lemma_cube_norm(a: CubeValue)
    ensures
        cube_mul(a, cube_adjugate(a)) == (cube_norm(a), 0int, 0int),
        cube_norm(a) == cube_norm_integer(a) % modulus(),
{
    let n = cube_adjugate_integers(a);
    lemma_residue_congruent(n.0);
    lemma_residue_congruent(n.1);
    lemma_residue_congruent(n.2);
    lemma_cube_mul_congruent(a, cube_adjugate(a), a, n);
    lemma_adjugate_rows(a);
}

/// Scaling the second factor by a base field value scales the product.
#[verifier::rlimit(40)]
pub proof fn lemma_cube_mul_scaled(a: CubeValue, n: CubeValue, d: int)
    ensures
        cube_mul(a, cube_scale(n, d)) == cube_scale(cube_mul(a, n), d),
{
    let scaled = (n.0 * d, n.1 * d, n.2 * d);
    let p = cube_product(a, n);
    lemma_residue_congruent(n.0 * d);
    lemma_residue_congruent(n.1 * d);
    lemma_residue_congruent(n.2 * d);
    lemma_cube_mul_congruent(a, cube_scale(n, d), a, scaled);
    lemma_mul_is_associative(a.0, n.0, d);
    lemma_mul_is_associative(a.0, n.1, d);
    lemma_mul_is_associative(a.0, n.2, d);
    lemma_mul_is_associative(a.1, n.0, d);
    lemma_mul_is_associative(a.1, n.1, d);
    lemma_mul_is_associative(a.1, n.2, d);
    lemma_mul_is_associative(a.2, n.0, d);
    lemma_mul_is_associative(a.2, n.1, d);
    lemma_mul_is_associative(a.2, n.2, d);
    assert(p.0 * d == (a.0 * n.0) * d + (a.1 * n.2) * d + (a.2 * n.1) * d) by (nonlinear_arith)
        requires
            p.0 == a.0 * n.0 + a.1 * n.2 + a.2 * n.1,
    ;
    assert(p.1 * d == (a.0 * n.1) * d + (a.1 * n.0) * d + (a.1 * n.2) * d + (a.2 * n.1) * d + (a.2
        * n.2) * d) by (nonlinear_arith)
        requires
            p.1 == a.0 * n.1 + a.1 * n.0 + a.1 * n.2 + a.2 * n.1 + a.2 * n.2,
    ;
    assert(p.2 * d == (a.0 * n.2) * d + (a.1 * n.1) * d + (a.2 * n.0) * d + (a.2 * n.2) * d)
        by (nonlinear_arith)
        requires
            p.2 == a.0 * n.2 + a.1 * n.1 + a.2 * n.0 + a.2 * n.2,
    ;
    lemma_mul_mod_reduce(p.0, d);
    lemma_mul_mod_reduce(p.1, d);
    lemma_mul_mod_reduce(p.2, d);
}

/// The form `n^3 - n d^2 - d^3` is zero in the base field only where `d`
/// is: otherwise `n / d` would be a root of the cubic.
#[verifier::rlimit(40)]
pub proof fn lemma_cubic_form_is_nonzero(n: int, d: int)
    requires
        d % modulus() != 0,
    ensures
        cubic_form(n, d) % modulus() != 0,
{
    if cubic_form(n, d) % modulus() == 0 {
        let u = inv_mod(d);
        let s = n * u;
        let y = s * d;
        lemma_inverse(d);
        lemma_mul_is_commutative(d, u);
        lemma_mul_is_associative(n, u, d);
        lemma_residue_congruent(u * d);
        lemma_mul_congruent(n, u * d, n, 1);
        assert(n * 1 == n);
        // the form at `y` is congruent to the form at `n`
        lemma_mul_congruent(y, y, n, n);
        lemma_mul_congruent(y, y * y, n, n * n);
        lemma_mul_congruent(y, d * d, n, d * d);
        lemma_sub_congruent(y * (y * y), y * (d * d), n * (n * n), n * (d * d));
        lemma_sub_congruent(
            y * (y * y) - y * (d * d),
            d * (d * d),
            n * (n * n) - n * (d * d),
            d * (d * d),
        );
        lemma_cubic_times_cube(s, d);
        // no factor `d` of the product is zero, so the cubic at `s` is
        lemma_no_zero_divisors(d, d * (d * cubic(s)));
        lemma_no_zero_divisors(d, d * cubic(s));
        lemma_no_zero_divisors(d, cubic(s));
        reveal(is_root);
        lemma_cubic_has_no_root(s);
    }
}

/// The norm of an element other than zero is not zero.
#[verifier::rlimit(40)]
pub proof fn lemma_cube_norm_is_nonzero(a: CubeValue)
    requires
        0 <= a.0 < modulus(),
        0 <= a.1 < modulus(),
        0 <= a.2 < modulus(),
        a != (0int, 0int, 0int),
    ensures
        cube_norm(a) != 0,
{
    lemma_cube_norm(a);
    let n = cube_adjugate_integers(a);
    let norm = cube_norm_integer(a);
    if norm % modulus() == 0 {
        let minor = a.1 * n.2 - a.2 * n.1;
        lemma_adjugate_cubic_form(a);
        lemma_mul_congruent(minor, norm, minor, 0);
        assert(minor * 0 == 0);
        lemma_sub_congruent(0, minor * norm, 0, 0);
        assert(cubic_form(n.1, n.2) == 0 - minor * norm);
        if n.2 % modulus() != 0 {
            lemma_cubic_form_is_nonzero(n.1, n.2);
        } else {
            // the first coordinate of the adjugate is zero as well
            lemma_mul_congruent(n.2, n.2, 0, 0);
            lemma_mul_congruent(n.1, n.2 * n.2, n.1, 0);
            lemma_mul_congruent(n.2, n.2 * n.2, 0, 0);
            assert(n.1 * 0 == 0 && 0 * 0 == 0);
            lemma_add_congruent(cubic_form(n.1, n.2), n.1 * (n.2 * n.2), 0, 0);
            lemma_add_congruent(
                cubic_form(n.1, n.2) + n.1 * (n.2 * n.2),
                n.2 * (n.2 * n.2),
                0,
                0,
            );
            lemma_no_zero_divisors(n.1, n.1 * n.1);
            if n.1 % modulus() != 0 {
                lemma_no_zero_divisors(n.1, n.1);
            }
            assert(n.1 % modulus() == 0);
            lemma_adjugate_minor(a);
            lemma_mul_congruent(a.1, n.2, a.1, 0);
            lemma_mul_congruent(a.2, n.1, a.2, 0);
            assert(a.1 * 0 == 0 && a.2 * 0 == 0);
            lemma_sub_congruent(a.1 * n.2, a.2 * n.1, 0, 0);
            if a.2 != 0 {
                lemma_cubic_form_is_nonzero(a.1, a.2);
            } else {
                assert(a.0 * 0 == 0 && 0 * 0 == 0 && a.1 * 0 == 0);
                lemma_no_zero_divisors(a.1, a.1);
                assert(a.1 == 0);
                assert(n.0 == a.0 * a.0);
                assert(norm == a.0 * (a.0 * a.0));
                lemma_no_zero_divisors(a.0, a.0 * a.0);
                if a.0 != 0 {
                    lemma_no_zero_divisors(a.0, a.0);
                }
            }
        }
    }
}

/// An element multiplied by its inverse is one, except that it is zero for
/// zero.
pub proof fn lemma_cube_inverse(v: CubeValue)
    requires
        0 <= v.0 < modulus(),
        0 <= v.1 < modulus(),
        0 <= v.2 < modulus(),
    ensures
        v != (0int, 0int, 0int) ==> cube_mul(v, cube_inv(v)) == (1int, 0int, 0int),
        v == (0int, 0int, 0int) ==> cube_mul(v, cube_inv(v)) == (0int, 0int, 0int),
{
    let d = inv_mod(cube_norm(v));
    lemma_cube_mul_scaled(v, cube_adjugate(v), d);
    lemma_cube_norm(v);
    lemma_inverse(cube_norm(v));
    assert(0 * d == 0);
    if v != (0int, 0int, 0int) {
        lemma_cube_norm_is_nonzero(v);
    } else {
        assert(0 * 0 == 0);
    }
}

} // verus!
