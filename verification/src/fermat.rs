//! The multiplicative structure of the base field: its modulus is a field
//! modulus, and the nonzero residues are the powers of seven.

use crate::generators::{
    generates, is_field_modulus, lemma_generated_is_field, lemma_little_theorem,
    lemma_multiply_step, lemma_product_of_concatenation, lemma_product_of_twos,
    lemma_square_step, lemma_two_is_field, lemma_two_power_generator, pow_mod_n, product, twos,
};
use crate::modular::{
    inv_mod, lemma_mul_mod_assoc, lemma_mul_mod_reduce, lemma_pow_mod_reduce,
    lemma_pow_mod_square, lemma_pow_mod_step, modulus, mul_mod, pow_mod,
};
use vstd::arithmetic::mul::lemma_mul_is_commutative;
use vstd::arithmetic::power::{lemma_pow1, lemma_pow_multiplies, lemma_square_is_pow2};
use vstd::arithmetic::power2::lemma2_to64;
use vstd::prelude::*;

verus! {

/// The factors of `M - 1 = 2^32 * 3 * 5 * 17 * 257 * 65537`.
pub open spec fn order_factors() -> Seq<int> {
    twos(32) + seq![3int, 5int, 17int, 257int, 65537int]
}

/// The powers of seven at `2^31` and `2^32`.
#[verifier::rlimit(40)]
proof fn lemma_seven_two_powers()
    ensures
        pow_mod(7, 2147483648) == 17380019310548783236,
        pow_mod(7, 4294967296) == 12275445934081160404,
{
    lemma_pow1(7);
    lemma_square_step(7, 1, 7, 49, modulus());
    lemma_square_step(7, 2, 49, 2401, modulus());
    lemma_square_step(7, 4, 2401, 5764801, modulus());
    lemma_square_step(7, 8, 5764801, 33232930569601, modulus());
    lemma_square_step(7, 16, 33232930569601, 3732854072722565977, modulus());
    lemma_square_step(7, 32, 3732854072722565977, 11250886851934520606, modulus());
    lemma_square_step(7, 64, 11250886851934520606, 12159723539389677939, modulus());
    lemma_square_step(7, 128, 12159723539389677939, 1536671775522476176, modulus());
    lemma_square_step(7, 256, 1536671775522476176, 18371408314118145657, modulus());
    lemma_square_step(7, 512, 18371408314118145657, 2431605942540367610, modulus());
    lemma_square_step(7, 1024, 2431605942540367610, 6358221588783459004, modulus());
    lemma_square_step(7, 2048, 6358221588783459004, 10083885515493449909, modulus());
    lemma_square_step(7, 4096, 10083885515493449909, 15094611910849701842, modulus());
    lemma_square_step(7, 8192, 15094611910849701842, 18060412910171584788, modulus());
    lemma_square_step(7, 16384, 18060412910171584788, 10529651373896570371, modulus());
    lemma_square_step(7, 32768, 10529651373896570371, 11156834669773791359, modulus());
    lemma_square_step(7, 65536, 11156834669773791359, 11840798296997857860, modulus());
    lemma_square_step(7, 131072, 11840798296997857860, 1447330804268045396, modulus());
    lemma_square_step(7, 262144, 1447330804268045396, 15265864706138236984, modulus());
    lemma_square_step(7, 524288, 15265864706138236984, 12990112920302977158, modulus());
    lemma_square_step(7, 1048576, 12990112920302977158, 16491641580159807679, modulus());
    lemma_square_step(7, 2097152, 16491641580159807679, 17642952523097762870, modulus());
    lemma_square_step(7, 4194304, 17642952523097762870, 4419967652436713981, modulus());
    lemma_square_step(7, 8388608, 4419967652436713981, 7206579306846404579, modulus());
    lemma_square_step(7, 16777216, 7206579306846404579, 17869454728573311546, modulus());
    lemma_square_step(7, 33554432, 17869454728573311546, 4919185416341570378, modulus());
    lemma_square_step(7, 67108864, 4919185416341570378, 14445320067108370181, modulus());
    lemma_square_step(7, 134217728, 14445320067108370181, 17666966662873528270, modulus());
    lemma_square_step(7, 268435456, 17666966662873528270, 5473358340599679662, modulus());
    lemma_square_step(7, 536870912, 5473358340599679662, 4120449531758749877, modulus());
    lemma_square_step(7, 1073741824, 4120449531758749877, 17380019310548783236, modulus());
    lemma_square_step(7, 2147483648, 17380019310548783236, 12275445934081160404, modulus());
}

/// The power of seven at a third of `M - 1`, and those at three smaller
/// divisors of that exponent.
#[verifier::rlimit(40)]
proof fn lemma_seven_third()
    requires
        pow_mod(7, 4294967296) == 12275445934081160404,
    ensures
        pow_mod(7, 281479271677952) == 3325199773236460081,
        pow_mod(7, 72340172821233664) == 8735829848502199042,
        pow_mod(7, 1229782937960972288) == 12030049465912850429,
        pow_mod(7, 6148914689804861440) == 18446744065119617025,
{
    lemma_square_step(7, 4294967296, 12275445934081160404, 4756475762779100925, modulus());
    lemma_square_step(7, 8589934592, 4756475762779100925, 8312008622371998338, modulus());
    lemma_square_step(7, 17179869184, 8312008622371998338, 3688660304411827445, modulus());
    lemma_square_step(7, 34359738368, 3688660304411827445, 6534114114080170934, modulus());
    lemma_square_step(7, 68719476736, 6534114114080170934, 12241777603010464820, modulus());
    lemma_square_step(7, 137438953472, 12241777603010464820, 6822456961749002749, modulus());
    lemma_square_step(7, 274877906944, 6822456961749002749, 14740284407083446365, modulus());
    lemma_square_step(7, 549755813888, 14740284407083446365, 14198376421529404772, modulus());
    lemma_square_step(7, 1099511627776, 14198376421529404772, 16372603252271478917, modulus());
    lemma_square_step(7, 2199023255552, 16372603252271478917, 6094962593300533783, modulus());
    lemma_square_step(7, 4398046511104, 6094962593300533783, 12855798221536971597, modulus());
    lemma_square_step(7, 8796093022208, 12855798221536971597, 4570035464479216815, modulus());
    lemma_square_step(7, 17592186044416, 4570035464479216815, 13312966101283008305, modulus());
    lemma_square_step(7, 35184372088832, 13312966101283008305, 17717521521350689785, modulus());
    lemma_square_step(7, 70368744177664, 17717521521350689785, 2579852125121816621, modulus());
    lemma_square_step(7, 140737488355328, 2579852125121816621, 5647278486080789199, modulus());
    lemma_multiply_step(
        7,
        281474976710656,
        5647278486080789199,
        4294967296,
        12275445934081160404,
        3325199773236460081,
        modulus(),
    );
    lemma_square_step(7, 281479271677952, 3325199773236460081, 11594917091220031683, modulus());
    lemma_square_step(7, 562958543355904, 11594917091220031683, 335304168899516603, modulus());
    lemma_square_step(7, 1125917086711808, 335304168899516603, 5878586773437569563, modulus());
    lemma_square_step(7, 2251834173423616, 5878586773437569563, 14115945277585684606, modulus());
    lemma_square_step(7, 4503668346847232, 14115945277585684606, 4530885910609711335, modulus());
    lemma_square_step(7, 9007336693694464, 4530885910609711335, 11520323530109515181, modulus());
    lemma_square_step(7, 18014673387388928, 11520323530109515181, 14300666094211830646, modulus());
    lemma_square_step(7, 36029346774777856, 14300666094211830646, 15483861228328778163, modulus());
    lemma_multiply_step(
        7,
        72058693549555712,
        15483861228328778163,
        281479271677952,
        3325199773236460081,
        8735829848502199042,
        modulus(),
    );
    lemma_square_step(7, 72340172821233664, 8735829848502199042, 15631128954113459258, modulus());
    lemma_square_step(7, 144680345642467328, 15631128954113459258, 15359164688213994325, modulus());
    lemma_square_step(7, 289360691284934656, 15359164688213994325, 6837365777759236146, modulus());
    lemma_square_step(7, 578721382569869312, 6837365777759236146, 3643932312469289124, modulus());
    lemma_multiply_step(
        7,
        1157442765139738624,
        3643932312469289124,
        72340172821233664,
        8735829848502199042,
        12030049465912850429,
        modulus(),
    );
    lemma_square_step(7, 1229782937960972288, 12030049465912850429, 5827060148806575656, modulus());
    lemma_square_step(7, 2459565875921944576, 5827060148806575656, 3296831073940435226, modulus());
    lemma_multiply_step(
        7,
        4919131751843889152,
        3296831073940435226,
        1229782937960972288,
        12030049465912850429,
        18446744065119617025,
        modulus(),
    );
}

/// The power of seven at a fifth of `M - 1`.
#[verifier::rlimit(40)]
proof fn lemma_seven_fifth()
    requires
        pow_mod(7, 1229782937960972288) == 12030049465912850429,
    ensures
        pow_mod(7, 3689348813882916864) == 1373043270956696022,
{
    lemma_square_step(7, 1229782937960972288, 12030049465912850429, 5827060148806575656, modulus());
    lemma_multiply_step(
        7,
        2459565875921944576,
        5827060148806575656,
        1229782937960972288,
        12030049465912850429,
        1373043270956696022,
        modulus(),
    );
}

/// The power of seven at a seventeenth of `M - 1`.
#[verifier::rlimit(40)]
proof fn lemma_seven_seventeenth()
    requires
        pow_mod(7, 72340172821233664) == 8735829848502199042,
    ensures
        pow_mod(7, 1085102592318504960) == 16301593560560007290,
{
    lemma_square_step(7, 72340172821233664, 8735829848502199042, 15631128954113459258, modulus());
    lemma_multiply_step(
        7,
        144680345642467328,
        15631128954113459258,
        72340172821233664,
        8735829848502199042,
        17985057496665516549,
        modulus(),
    );
    lemma_square_step(7, 217020518463700992, 17985057496665516549, 17016603906084084915, modulus());
    lemma_square_step(7, 434041036927401984, 17016603906084084915, 12650688247485237441, modulus());
    lemma_multiply_step(
        7,
        868082073854803968,
        12650688247485237441,
        217020518463700992,
        17985057496665516549,
        16301593560560007290,
        modulus(),
    );
}

/// The power of seven at the 257th part of `M - 1`.
#[verifier::rlimit(40)]
proof fn lemma_seven_257th()
    requires
        pow_mod(7, 281479271677952) == 3325199773236460081,
    ensures
        pow_mod(7, 71777214277877760) == 995085315851368103,
{
    lemma_square_step(7, 281479271677952, 3325199773236460081, 11594917091220031683, modulus());
    lemma_multiply_step(
        7,
        562958543355904,
        11594917091220031683,
        281479271677952,
        3325199773236460081,
        15844274626116254690,
        modulus(),
    );
    lemma_square_step(7, 844437815033856, 15844274626116254690, 18218445316092301849, modulus());
    lemma_square_step(7, 1688875630067712, 18218445316092301849, 2347444005716465466, modulus());
    lemma_multiply_step(
        7,
        3377751260135424,
        2347444005716465466,
        844437815033856,
        15844274626116254690,
        8792368260529980333,
        modulus(),
    );
    lemma_square_step(7, 4222189075169280, 8792368260529980333, 12851929749413429462, modulus());
    lemma_square_step(7, 8444378150338560, 12851929749413429462, 280207120007640597, modulus());
    lemma_square_step(7, 16888756300677120, 280207120007640597, 639528711993945789, modulus());
    lemma_square_step(7, 33777512601354240, 639528711993945789, 9201993117265846966, modulus());
    lemma_multiply_step(
        7,
        67555025202708480,
        9201993117265846966,
        4222189075169280,
        8792368260529980333,
        995085315851368103,
        modulus(),
    );
}

/// The power of seven at the 65537th part of `M - 1`.
#[verifier::rlimit(40)]
proof fn lemma_seven_65537th()
    requires
        pow_mod(7, 4294967296) == 12275445934081160404,
    ensures
        pow_mod(7, 281470681743360) == 8478886009461009681,
{
    lemma_square_step(7, 4294967296, 12275445934081160404, 4756475762779100925, modulus());
    lemma_multiply_step(
        7,
        8589934592,
        4756475762779100925,
        4294967296,
        12275445934081160404,
        1279992132519201448,
        modulus(),
    );
    lemma_square_step(7, 12884901888, 1279992132519201448, 11302600489504509467, modulus());
    lemma_square_step(7, 25769803776, 11302600489504509467, 15099809066790865939, modulus());
    lemma_multiply_step(
        7,
        51539607552,
        15099809066790865939,
        12884901888,
        1279992132519201448,
        11274872323250451096,
        modulus(),
    );
    lemma_square_step(7, 64424509440, 11274872323250451096, 12069298394184580155, modulus());
    lemma_square_step(7, 128849018880, 12069298394184580155, 5428282574489895836, modulus());
    lemma_square_step(7, 257698037760, 5428282574489895836, 15488913980707339956, modulus());
    lemma_square_step(7, 515396075520, 15488913980707339956, 14489374604437787495, modulus());
    lemma_multiply_step(
        7,
        1030792151040,
        14489374604437787495,
        64424509440,
        11274872323250451096,
        17588058450869219263,
        modulus(),
    );
    lemma_square_step(7, 1095216660480, 17588058450869219263, 683923235602147932, modulus());
    lemma_square_step(7, 2190433320960, 683923235602147932, 8835979233172182436, modulus());
    lemma_square_step(7, 4380866641920, 8835979233172182436, 3355407709622930266, modulus());
    lemma_square_step(7, 8761733283840, 3355407709622930266, 17799430507262292938, modulus());
    lemma_square_step(7, 17523466567680, 17799430507262292938, 11182389913569094181, modulus());
    lemma_square_step(7, 35046933135360, 11182389913569094181, 11350173437670463340, modulus());
    lemma_square_step(7, 70093866270720, 11350173437670463340, 13348485338936455432, modulus());
    lemma_square_step(7, 140187732541440, 13348485338936455432, 13464544557546266752, modulus());
    lemma_multiply_step(
        7,
        280375465082880,
        13464544557546266752,
        1095216660480,
        17588058450869219263,
        8478886009461009681,
        modulus(),
    );
}

/// The powers of seven at half of `M - 1` and at `M - 1`.
#[verifier::rlimit(40)]
proof fn lemma_seven_half()
    requires
        pow_mod(7, 2147483648) == 17380019310548783236,
    ensures
        pow_mod(7, 9223372034707292160) == 18446744069414584320,
        pow_mod(7, 18446744069414584320) == 1,
{
    lemma_square_step(7, 2147483648, 17380019310548783236, 12275445934081160404, modulus());
    lemma_square_step(7, 4294967296, 12275445934081160404, 4756475762779100925, modulus());
    lemma_square_step(7, 8589934592, 4756475762779100925, 8312008622371998338, modulus());
    lemma_square_step(7, 17179869184, 8312008622371998338, 3688660304411827445, modulus());
    lemma_square_step(7, 34359738368, 3688660304411827445, 6534114114080170934, modulus());
    lemma_square_step(7, 68719476736, 6534114114080170934, 12241777603010464820, modulus());
    lemma_square_step(7, 137438953472, 12241777603010464820, 6822456961749002749, modulus());
    lemma_square_step(7, 274877906944, 6822456961749002749, 14740284407083446365, modulus());
    lemma_square_step(7, 549755813888, 14740284407083446365, 14198376421529404772, modulus());
    lemma_square_step(7, 1099511627776, 14198376421529404772, 16372603252271478917, modulus());
    lemma_square_step(7, 2199023255552, 16372603252271478917, 6094962593300533783, modulus());
    lemma_square_step(7, 4398046511104, 6094962593300533783, 12855798221536971597, modulus());
    lemma_square_step(7, 8796093022208, 12855798221536971597, 4570035464479216815, modulus());
    lemma_square_step(7, 17592186044416, 4570035464479216815, 13312966101283008305, modulus());
    lemma_square_step(7, 35184372088832, 13312966101283008305, 17717521521350689785, modulus());
    lemma_square_step(7, 70368744177664, 17717521521350689785, 2579852125121816621, modulus());
    lemma_multiply_step(
        7,
        140737488355328,
        2579852125121816621,
        2147483648,
        17380019310548783236,
        581371682463393409,
        modulus(),
    );
    lemma_square_step(7, 140739635838976, 581371682463393409, 3325199773236460081, modulus());
    lemma_square_step(7, 281479271677952, 3325199773236460081, 11594917091220031683, modulus());
    lemma_square_step(7, 562958543355904, 11594917091220031683, 335304168899516603, modulus());
    lemma_square_step(7, 1125917086711808, 335304168899516603, 5878586773437569563, modulus());
    lemma_square_step(7, 2251834173423616, 5878586773437569563, 14115945277585684606, modulus());
    lemma_square_step(7, 4503668346847232, 14115945277585684606, 4530885910609711335, modulus());
    lemma_square_step(7, 9007336693694464, 4530885910609711335, 11520323530109515181, modulus());
    lemma_square_step(7, 18014673387388928, 11520323530109515181, 14300666094211830646, modulus());
    lemma_multiply_step(
        7,
        36029346774777856,
        14300666094211830646,
        140739635838976,
        581371682463393409,
        5698479936091953215,
        modulus(),
    );
    lemma_square_step(7, 36170086410616832, 5698479936091953215, 8735829848502199042, modulus());
    lemma_square_step(7, 72340172821233664, 8735829848502199042, 15631128954113459258, modulus());
    lemma_square_step(7, 144680345642467328, 15631128954113459258, 15359164688213994325, modulus());
    lemma_square_step(7, 289360691284934656, 15359164688213994325, 6837365777759236146, modulus());
    lemma_multiply_step(
        7,
        578721382569869312,
        6837365777759236146,
        36170086410616832,
        5698479936091953215,
        11361255204267882604,
        modulus(),
    );
    lemma_square_step(7, 614891468980486144, 11361255204267882604, 12030049465912850429, modulus());
    lemma_square_step(7, 1229782937960972288, 12030049465912850429, 5827060148806575656, modulus());
    lemma_multiply_step(
        7,
        2459565875921944576,
        5827060148806575656,
        614891468980486144,
        11361255204267882604,
        18446744065119617026,
        modulus(),
    );
    lemma_square_step(
        7,
        3074457344902430720,
        18446744065119617026,
        18446744065119617025,
        modulus(),
    );
    lemma_multiply_step(
        7,
        6148914689804861440,
        18446744065119617025,
        3074457344902430720,
        18446744065119617026,
        18446744069414584320,
        modulus(),
    );
    lemma_square_step(7, 9223372034707292160, 18446744069414584320, 1, modulus());
}

/// Three, five, seventeen, 257 and 65537 are field moduli.
#[verifier::rlimit(40)]
proof fn lemma_small_factors_are_fields()
    ensures
        is_field_modulus(3),
        is_field_modulus(5),
        is_field_modulus(17),
        is_field_modulus(257),
        is_field_modulus(65537),
{
    lemma2_to64();
    lemma_pow1(2);
    lemma_pow1(3);
    assert(is_field_modulus(3)) by {
        lemma_two_power_generator(2, 3, 1);
    }
    assert(is_field_modulus(5)) by {
        lemma_square_step(2, 1, 2, 4, 5);
        lemma_two_power_generator(2, 5, 2);
    }
    assert(is_field_modulus(17)) by {
        lemma_square_step(3, 1, 3, 9, 17);
        lemma_square_step(3, 2, 9, 13, 17);
        lemma_square_step(3, 4, 13, 16, 17);
        lemma_two_power_generator(3, 17, 4);
    }
    assert(is_field_modulus(257)) by {
        lemma_square_step(3, 1, 3, 9, 257);
        lemma_square_step(3, 2, 9, 81, 257);
        lemma_square_step(3, 4, 81, 136, 257);
        lemma_square_step(3, 8, 136, 249, 257);
        lemma_square_step(3, 16, 249, 64, 257);
        lemma_square_step(3, 32, 64, 241, 257);
        lemma_square_step(3, 64, 241, 256, 257);
        lemma_two_power_generator(3, 257, 8);
    }
    assert(is_field_modulus(65537)) by {
        lemma_square_step(3, 1, 3, 9, 65537);
        lemma_square_step(3, 2, 9, 81, 65537);
        lemma_square_step(3, 4, 81, 6561, 65537);
        lemma_square_step(3, 8, 6561, 54449, 65537);
        lemma_square_step(3, 16, 54449, 61869, 65537);
        lemma_square_step(3, 32, 61869, 19139, 65537);
        lemma_square_step(3, 64, 19139, 15028, 65537);
        lemma_square_step(3, 128, 15028, 282, 65537);
        lemma_square_step(3, 256, 282, 13987, 65537);
        lemma_square_step(3, 512, 13987, 8224, 65537);
        lemma_square_step(3, 1024, 8224, 65529, 65537);
        lemma_square_step(3, 2048, 65529, 64, 65537);
        lemma_square_step(3, 4096, 64, 4096, 65537);
        lemma_square_step(3, 8192, 4096, 65281, 65537);
        lemma_square_step(3, 16384, 65281, 65536, 65537);
        lemma_two_power_generator(3, 65537, 16);
    }
}

/// Seven generates the nonzero residues modulo `M`.
#[verifier::rlimit(40)]
pub proof fn lemma_seven_generates()
    ensures
        generates(7, modulus(), order_factors()),
{
    let fs = order_factors();
    let odd = seq![3int, 5int, 17int, 257int, 65537int];
    lemma2_to64();
    lemma_product_of_twos(32);
    lemma_product_of_concatenation(twos(32), odd);
    assert(product(odd) == 0xFFFF_FFFF) by {
        assert(odd.skip(1) =~= seq![5int, 17int, 257int, 65537int]);
        assert(odd.skip(1).skip(1) =~= seq![17int, 257int, 65537int]);
        assert(odd.skip(1).skip(1).skip(1) =~= seq![257int, 65537int]);
        assert(odd.skip(1).skip(1).skip(1).skip(1) =~= seq![65537int]);
        assert(odd.skip(1).skip(1).skip(1).skip(1).skip(1) =~= Seq::<int>::empty());
        reveal_with_fuel(product, 6);
    }
    lemma_two_is_field();
    lemma_small_factors_are_fields();
    lemma_seven_two_powers();
    lemma_seven_third();
    lemma_seven_fifth();
    lemma_seven_seventeenth();
    lemma_seven_257th();
    lemma_seven_65537th();
    lemma_seven_half();
    assert forall|i: int| 0 <= i < fs.len() implies is_field_modulus(#[trigger] fs[i])
        && pow_mod_n(7, ((modulus() - 1) / fs[i]) as nat, modulus()) != 1 by {
        if i < 32 {
            assert(fs[i] == 2);
            assert((modulus() - 1) / 2 == 9223372034707292160);
        } else if i == 32 {
            assert(fs[i] == 3);
            assert((modulus() - 1) / 3 == 6148914689804861440);
        } else if i == 33 {
            assert(fs[i] == 5);
            assert((modulus() - 1) / 5 == 3689348813882916864);
        } else if i == 34 {
            assert(fs[i] == 17);
            assert((modulus() - 1) / 17 == 1085102592318504960);
        } else if i == 35 {
            assert(fs[i] == 257);
            assert((modulus() - 1) / 257 == 71777214277877760);
        } else if i == 36 {
            assert(fs[i] == 65537);
            assert((modulus() - 1) / 65537 == 281470681743360);
        }
    }
}

/// The modulus of the base field is a field modulus.
pub proof fn lemma_modulus_is_field()
    ensures
        is_field_modulus(modulus()),
{
    lemma_seven_generates();
    lemma_generated_is_field(7, modulus(), order_factors());
}

/// Every integer that the modulus does not divide has one as its
/// `(M - 1)`-th power.
pub proof fn lemma_fermat(a: int)
    requires
        a % modulus() != 0,
    ensures
        pow_mod(a, (modulus() - 1) as nat) == 1,
{
    lemma_seven_generates();
    lemma_little_theorem(7, modulus(), order_factors(), a);
}

/// An element multiplied by its inverse is one, except that it is zero for
/// zero.
pub proof fn lemma_inverse(a: int)
    ensures
        a % modulus() != 0 ==> mul_mod(a, inv_mod(a)) == 1,
        a % modulus() == 0 ==> mul_mod(a, inv_mod(a)) == 0,
{
    lemma_pow_mod_step(a, (modulus() - 2) as nat);
    if a % modulus() != 0 {
        lemma_fermat(a);
    } else {
        lemma_mul_mod_reduce(a, inv_mod(a));
        assert(0 * inv_mod(a) == 0);
    }
}

/// Seven to the power of half of `M - 1` is `-1`.
pub proof fn lemma_seven_is_no_square()
    ensures
        pow_mod(7, ((modulus() - 1) / 2) as nat) == modulus() - 1,
{
    lemma_seven_two_powers();
    lemma_seven_half();
}

/// A product of residues is zero only where one of the factors is zero.
pub proof fn lemma_no_zero_divisors(x: int, y: int)
    requires
        mul_mod(x, y) == 0,
    ensures
        x % modulus() == 0 || y % modulus() == 0,
{
    if x % modulus() != 0 {
        let u = inv_mod(x);
        lemma_inverse(x);
        lemma_mul_is_commutative(x, u);
        lemma_mul_mod_assoc(u, x, y);
        assert(1 * y == y);
        assert(u * 0 == 0);
    }
}

/// No residue has `-7` as its square.
pub proof fn lemma_minus_seven_is_no_square(t: int)
    ensures
        mul_mod(t, t) != modulus() - 7,
{
    if mul_mod(t, t) == modulus() - 7 {
        let half = ((modulus() - 1) / 2) as nat;
        let quarter = ((modulus() - 1) / 4) as nat;
        if t % modulus() == 0 {
            lemma_mul_mod_reduce(t, t);
            assert(0 * 0 == 0);
        }
        lemma_fermat(t);
        lemma_pow_mod_square(t, half);
        lemma_pow_mod_reduce(-7, half);
        lemma_pow_multiplies(-7, 2, quarter);
        lemma_pow_multiplies(7, 2, quarter);
        lemma_square_is_pow2(-7);
        lemma_square_is_pow2(7);
        lemma_seven_is_no_square();
    }
}

} // verus!
