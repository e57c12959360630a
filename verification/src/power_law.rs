//! The power law of the grading curve, in whole numbers: which value is
//! `184 * (v / 255)^(1 / 1.385)` rounded down, for every `v` from 0 to 255.

use vstd::prelude::*;

verus! {

/// `x` to the power of 200.
#[verifier::inline]
pub open spec fn pow200(x: int) -> int {
    let x2 = x * x;
    let x4 = x2 * x2;
    let x8 = x4 * x4;
    let x16 = x8 * x8;
    let x32 = x16 * x16;
    let x64 = x32 * x32;
    let x128 = x64 * x64;
    x128 * x64 * x8
}

/// `x` to the power of 277.
#[verifier::inline]
pub open spec fn pow277(x: int) -> int {
    let x2 = x * x;
    let x4 = x2 * x2;
    let x8 = x4 * x4;
    let x16 = x8 * x8;
    let x32 = x16 * x16;
    let x64 = x32 * x32;
    let x128 = x64 * x64;
    let x256 = x128 * x128;
    x256 * x16 * x4 * x
}

/// `k / 184 <= (v / 255)^(200 / 277) < (k + 1) / 184`, with both sides raised
/// to the power of 277 and the denominators cleared.
#[verifier::inline]
pub open spec fn in_bracket(v: int, k: int) -> bool {
    0 <= k && pow277(k) * pow200(255) <= pow200(v) * pow277(184) < pow277(k + 1) * pow200(255)
}

/// Whether `k` is `184 * (v / 255)^(1 / 1.385)` rounded down; the exponent
/// is `200 / 277`.
#[verifier::opaque]
pub open spec fn on_curve(v: int, k: int) -> bool {
    in_bracket(v, k)
}

/// The curve for `v` from 0 to 15.
pub proof fn lemma_curve_from_0()
    ensures
        on_curve(0, 0),
        on_curve(1, 3),
        on_curve(2, 5),
        on_curve(3, 7),
        on_curve(4, 9),
        on_curve(5, 10),
        on_curve(6, 12),
        on_curve(7, 13),
        on_curve(8, 15),
        on_curve(9, 16),
        on_curve(10, 17),
        on_curve(11, 19),
        on_curve(12, 20),
        on_curve(13, 21),
        on_curve(14, 22),
        on_curve(15, 23),
{
    assert(on_curve(0, 0)) by {
        assert(in_bracket(0, 0)) by (nonlinear_arith);
        reveal(on_curve);
    }
    assert(on_curve(1, 3)) by {
        assert(in_bracket(1, 3)) by (nonlinear_arith);
        reveal(on_curve);
    }
    assert(on_curve(2, 5)) by {
        assert(in_bracket(2, 5)) by (nonlinear_arith);
        reveal(on_curve);
    }
    assert(on_curve(3, 7)) by {
        assert(in_bracket(3, 7)) by (nonlinear_arith);
        reveal(on_curve);
    }
    assert(on_curve(4, 9)) by {
        assert(in_bracket(4, 9)) by (nonlinear_arith);
        reveal(on_curve);
    }
    assert(on_curve(5, 10)) by {
        assert(in_bracket(5, 10)) by (nonlinear_arith);
        reveal(on_curve);
    }
    assert(on_curve(6, 12)) by {
        assert(in_bracket(6, 12)) by (nonlinear_arith);
        reveal(on_curve);
    }
    assert(on_curve(7, 13)) by {
        assert(in_bracket(7, 13)) by (nonlinear_arith);
        reveal(on_curve);
    }
    assert(on_curve(8, 15)) by {
        assert(in_bracket(8, 15)) by (nonlinear_arith);
        reveal(on_curve);
    }
    assert(on_curve(9, 16)) by {
        assert(in_bracket(9, 16)) by (nonlinear_arith);
        reveal(on_curve);
    }
    assert(on_curve(10, 17)) by {
        assert(in_bracket(10, 17)) by (nonlinear_arith);
        reveal(on_curve);
    }
    assert(on_curve(11, 19)) by {
        assert(in_bracket(11, 19)) by (nonlinear_arith);
        reveal(on_curve);
    }
    assert(on_curve(12, 20)) by {
        assert(in_bracket(12, 20)) by (nonlinear_arith);
        reveal(on_curve);
    }
    assert(on_curve(13, 21)) by {
        assert(in_bracket(13, 21)) by (nonlinear_arith);
        reveal(on_curve);
    }
    assert(on_curve(14, 22)) by {
        assert(in_bracket(14, 22)) by (nonlinear_arith);
        reveal(on_curve);
    }
    assert(on_curve(15, 23)) by {
        assert(in_bracket(15, 23)) by (nonlinear_arith);
        reveal(on_curve);
    }
}

/// The curve for `v` from 16 to 31.
pub proof fn lemma_curve_from_16()
    ensures
        on_curve(16, 24),
        on_curve(17, 26),
        on_curve(18, 27),
        on_curve(19, 28),
        on_curve(20, 29),
        on_curve(21, 30),
        on_curve(22, 31),
        on_curve(23, 32),
        on_curve(24, 33),
        on_curve(25, 34),
        on_curve(26, 35),
        on_curve(27, 36),
        on_curve(28, 37),
        on_curve(29, 38),
        on_curve(30, 39),
        on_curve(31, 40),
{
    assert(on_curve(16, 24)) by {
        assert(in_bracket(16, 24)) by (nonlinear_arith);
        reveal(on_curve);
    }
    assert(on_curve(17, 26)) by {
        assert(in_bracket(17, 26)) by (nonlinear_arith);
        reveal(on_curve);
    }
    assert(on_curve(18, 27)) by {
        assert(in_bracket(18, 27)) by (nonlinear_arith);
        reveal(on_curve);
    }
    assert(on_curve(19, 28)) by {
        assert(in_bracket(19, 28)) by (nonlinear_arith);
        reveal(on_curve);
    }
    assert(on_curve(20, 29)) by {
        assert(in_bracket(20, 29)) by (nonlinear_arith);
        reveal(on_curve);
    }
    assert(on_curve(21, 30)) by {
        assert(in_bracket(21, 30)) by (nonlinear_arith);
        reveal(on_curve);
    }
    assert(on_curve(22, 31)) by {
        assert(in_bracket(22, 31)) by (nonlinear_arith);
        reveal(on_curve);
    }
    assert(on_curve(23, 32)) by {
        assert(in_bracket(23, 32)) by (nonlinear_arith);
        reveal(on_curve);
    }
    assert(on_curve(24, 33)) by {
        assert(in_bracket(24, 33)) by (nonlinear_arith);
        reveal(on_curve);
    }
    assert(on_curve(25, 34)) by {
        assert(in_bracket(25, 34)) by (nonlinear_arith);
        reveal(on_curve);
    }
    assert(on_curve(26, 35)) by {
        assert(in_bracket(26, 35)) by (nonlinear_arith);
        reveal(on_curve);
    }
    assert(on_curve(27, 36)) by {
        assert(in_bracket(27, 36)) by (nonlinear_arith);
        reveal(on_curve);
    }
    assert(on_curve(28, 37)) by {
        assert(in_bracket(28, 37)) by (nonlinear_arith);
        reveal(on_curve);
    }
    assert(on_curve(29, 38)) by {
        assert(in_bracket(29, 38)) by (nonlinear_arith);
        reveal(on_curve);
    }
    assert(on_curve(30, 39)) by {
        assert(in_bracket(30, 39)) by (nonlinear_arith);
        reveal(on_curve);
    }
    assert(on_curve(31, 40)) by {
        assert(in_bracket(31, 40)) by (nonlinear_arith);
        reveal(on_curve);
    }
}

/// The curve for `v` from 32 to 47.
pub proof fn lemma_curve_from_32()
    ensures
        on_curve(32, 41),
        on_curve(33, 42),
        on_curve(34, 42),
        on_curve(35, 43),
        on_curve(36, 44),
        on_curve(37, 45),
        on_curve(38, 46),
        on_curve(39, 47),
        on_curve(40, 48),
        on_curve(41, 49),
        on_curve(42, 50),
        on_curve(43, 50),
        on_curve(44, 51),
        on_curve(45, 52),
        on_curve(46, 53),
        on_curve(47, 54),
{
    assert(on_curve(32, 41)) by {
        assert(in_bracket(32, 41)) by (nonlinear_arith);
        reveal(on_curve);
    }
    assert(on_curve(33, 42)) by {
        assert(in_bracket(33, 42)) by (nonlinear_arith);
        reveal(on_curve);
    }
    assert(on_curve(34, 42)) by {
        assert(in_bracket(34, 42)) by (nonlinear_arith);
        reveal(on_curve);
    }
    assert(on_curve(35, 43)) by {
        assert(in_bracket(35, 43)) by (nonlinear_arith);
        reveal(on_curve);
    }
    assert(on_curve(36, 44)) by {
        assert(in_bracket(36, 44)) by (nonlinear_arith);
        reveal(on_curve);
    }
    assert(on_curve(37, 45)) by {
        assert(in_bracket(37, 45)) by (nonlinear_arith);
        reveal(on_curve);
    }
    assert(on_curve(38, 46)) by {
        assert(in_bracket(38, 46)) by (nonlinear_arith);
        reveal(on_curve);
    }
    assert(on_curve(39, 47)) by {
        assert(in_bracket(39, 47)) by (nonlinear_arith);
        reveal(on_curve);
    }
    assert(on_curve(40, 48)) by {
        assert(in_bracket(40, 48)) by (nonlinear_arith);
        reveal(on_curve);
    }
    assert(on_curve(41, 49)) by {
        assert(in_bracket(41, 49)) by (nonlinear_arith);
        reveal(on_curve);
    }
    assert(on_curve(42, 50)) by {
        assert(in_bracket(42, 50)) by (nonlinear_arith);
        reveal(on_curve);
    }
    assert(on_curve(43, 50)) by {
        assert(in_bracket(43, 50)) by (nonlinear_arith);
        reveal(on_curve);
    }
    assert(on_curve(44, 51)) by {
        assert(in_bracket(44, 51)) by (nonlinear_arith);
        reveal(on_curve);
    }
    assert(on_curve(45, 52)) by {
        assert(in_bracket(45, 52)) by (nonlinear_arith);
        reveal(on_curve);
    }
    assert(on_curve(46, 53)) by {
        assert(in_bracket(46, 53)) by (nonlinear_arith);
        reveal(on_curve);
    }
    assert(on_curve(47, 54)) by {
        assert(in_bracket(47, 54)) by (nonlinear_arith);
        reveal(on_curve);
    }
}

/// The curve for `v` from 48 to 63.
pub proof fn lemma_curve_from_48()
    ensures
        on_curve(48, 55),
        on_curve(49, 55),
        on_curve(50, 56),
        on_curve(51, 57),
        on_curve(52, 58),
        on_curve(53, 59),
        on_curve(54, 59),
        on_curve(55, 60),
        on_curve(56, 61),
        on_curve(57, 62),
        on_curve(58, 63),
        on_curve(59, 63),
        on_curve(60, 64),
        on_curve(61, 65),
        on_curve(62, 66),
        on_curve(63, 67),
{
    assert(on_curve(48, 55)) by {
        assert(in_bracket(48, 55)) by (nonlinear_arith);
        reveal(on_curve);
    }
    assert(on_curve(49, 55)) by {
        assert(in_bracket(49, 55)) by (nonlinear_arith);
        reveal(on_curve);
    }
    assert(on_curve(50, 56)) by {
        assert(in_bracket(50, 56)) by (nonlinear_arith);
        reveal(on_curve);
    }
    assert(on_curve(51, 57)) by {
        assert(in_bracket(51, 57)) by (nonlinear_arith);
        reveal(on_curve);
    }
    assert(on_curve(52, 58)) by {
        assert(in_bracket(52, 58)) by (nonlinear_arith);
        reveal(on_curve);
    }
    assert(on_curve(53, 59)) by {
        assert(in_bracket(53, 59)) by (nonlinear_arith);
        reveal(on_curve);
    }
    assert(on_curve(54, 59)) by {
        assert(in_bracket(54, 59)) by (nonlinear_arith);
        reveal(on_curve);
    }
    assert(on_curve(55, 60)) by {
        assert(in_bracket(55, 60)) by (nonlinear_arith);
        reveal(on_curve);
    }
    assert(on_curve(56, 61)) by {
        assert(in_bracket(56, 61)) by (nonlinear_arith);
        reveal(on_curve);
    }
    assert(on_curve(57, 62)) by {
        assert(in_bracket(57, 62)) by (nonlinear_arith);
        reveal(on_curve);
    }
    assert(on_curve(58, 63)) by {
        assert(in_bracket(58, 63)) by (nonlinear_arith);
        reveal(on_curve);
    }
    assert(on_curve(59, 63)) by {
        assert(in_bracket(59, 63)) by (nonlinear_arith);
        reveal(on_curve);
    }
    assert(on_curve(60, 64)) by {
        assert(in_bracket(60, 64)) by (nonlinear_arith);
        reveal(on_curve);
    }
    assert(on_curve(61, 65)) by {
        assert(in_bracket(61, 65)) by (nonlinear_arith);
        reveal(on_curve);
    }
    assert(on_curve(62, 66)) by {
        assert(in_bracket(62, 66)) by (nonlinear_arith);
        reveal(on_curve);
    }
    assert(on_curve(63, 67)) by {
        assert(in_bracket(63, 67)) by (nonlinear_arith);
        reveal(on_curve);
    }
}

/// The curve for `v` from 64 to 79.
pub proof fn lemma_curve_from_64()
    ensures
        on_curve(64, 67),
        on_curve(65, 68),
        on_curve(66, 69),
        on_curve(67, 70),
        on_curve(68, 70),
        on_curve(69, 71),
        on_curve(70, 72),
        on_curve(71, 73),
        on_curve(72, 73),
        on_curve(73, 74),
        on_curve(74, 75),
        on_curve(75, 76),
        on_curve(76, 76),
        on_curve(77, 77),
        on_curve(78, 78),
        on_curve(79, 78),
{
    assert(on_curve(64, 67)) by {
        assert(in_bracket(64, 67)) by (nonlinear_arith);
        reveal(on_curve);
    }
    assert(on_curve(65, 68)) by {
        assert(in_bracket(65, 68)) by (nonlinear_arith);
        reveal(on_curve);
    }
    assert(on_curve(66, 69)) by {
        assert(in_bracket(66, 69)) by (nonlinear_arith);
        reveal(on_curve);
    }
    assert(on_curve(67, 70)) by {
        assert(in_bracket(67, 70)) by (nonlinear_arith);
        reveal(on_curve);
    }
    assert(on_curve(68, 70)) by {
        assert(in_bracket(68, 70)) by (nonlinear_arith);
        reveal(on_curve);
    }
    assert(on_curve(69, 71)) by {
        assert(in_bracket(69, 71)) by (nonlinear_arith);
        reveal(on_curve);
    }
    assert(on_curve(70, 72)) by {
        assert(in_bracket(70, 72)) by (nonlinear_arith);
        reveal(on_curve);
    }
    assert(on_curve(71, 73)) by {
        assert(in_bracket(71, 73)) by (nonlinear_arith);
        reveal(on_curve);
    }
    assert(on_curve(72, 73)) by {
        assert(in_bracket(72, 73)) by (nonlinear_arith);
        reveal(on_curve);
    }
    assert(on_curve(73, 74)) by {
        assert(in_bracket(73, 74)) by (nonlinear_arith);
        reveal(on_curve);
    }
    assert(on_curve(74, 75)) by {
        assert(in_bracket(74, 75)) by (nonlinear_arith);
        reveal(on_curve);
    }
    assert(on_curve(75, 76)) by {
        assert(in_bracket(75, 76)) by (nonlinear_arith);
        reveal(on_curve);
    }
    assert(on_curve(76, 76)) by {
        assert(in_bracket(76, 76)) by (nonlinear_arith);
        reveal(on_curve);
    }
    assert(on_curve(77, 77)) by {
        assert(in_bracket(77, 77)) by (nonlinear_arith);
        reveal(on_curve);
    }
    assert(on_curve(78, 78)) by {
        assert(in_bracket(78, 78)) by (nonlinear_arith);
        reveal(on_curve);
    }
    assert(on_curve(79, 78)) by {
        assert(in_bracket(79, 78)) by (nonlinear_arith);
        reveal(on_curve);
    }
}

/// The curve for `v` from 80 to 95.
pub proof fn lemma_curve_from_80()
    ensures
        on_curve(80, 79),
        on_curve(81, 80),
        on_curve(82, 81),
        on_curve(83, 81),
        on_curve(84, 82),
        on_curve(85, 83),
        on_curve(86, 83),
        on_curve(87, 84),
        on_curve(88, 85),
        on_curve(89, 86),
        on_curve(90, 86),
        on_curve(91, 87),
        on_curve(92, 88),
        on_curve(93, 88),
        on_curve(94, 89),
        on_curve(95, 90),
{
    assert(on_curve(80, 79)) by {
        assert(in_bracket(80, 79)) by (nonlinear_arith);
        reveal(on_curve);
    }
    assert(on_curve(81, 80)) by {
        assert(in_bracket(81, 80)) by (nonlinear_arith);
        reveal(on_curve);
    }
    assert(on_curve(82, 81)) by {
        assert(in_bracket(82, 81)) by (nonlinear_arith);
        reveal(on_curve);
    }
    assert(on_curve(83, 81)) by {
        assert(in_bracket(83, 81)) by (nonlinear_arith);
        reveal(on_curve);
    }
    assert(on_curve(84, 82)) by {
        assert(in_bracket(84, 82)) by (nonlinear_arith);
        reveal(on_curve);
    }
    assert(on_curve(85, 83)) by {
        assert(in_bracket(85, 83)) by (nonlinear_arith);
        reveal(on_curve);
    }
    assert(on_curve(86, 83)) by {
        assert(in_bracket(86, 83)) by (nonlinear_arith);
        reveal(on_curve);
    }
    assert(on_curve(87, 84)) by {
        assert(in_bracket(87, 84)) by (nonlinear_arith);
        reveal(on_curve);
    }
    assert(on_curve(88, 85)) by {
        assert(in_bracket(88, 85)) by (nonlinear_arith);
        reveal(on_curve);
    }
    assert(on_curve(89, 86)) by {
        assert(in_bracket(89, 86)) by (nonlinear_arith);
        reveal(on_curve);
    }
    assert(on_curve(90, 86)) by {
        assert(in_bracket(90, 86)) by (nonlinear_arith);
        reveal(on_curve);
    }
    assert(on_curve(91, 87)) by {
        assert(in_bracket(91, 87)) by (nonlinear_arith);
        reveal(on_curve);
    }
    assert(on_curve(92, 88)) by {
        assert(in_bracket(92, 88)) by (nonlinear_arith);
        reveal(on_curve);
    }
    assert(on_curve(93, 88)) by {
        assert(in_bracket(93, 88)) by (nonlinear_arith);
        reveal(on_curve);
    }
    assert(on_curve(94, 89)) by {
        assert(in_bracket(94, 89)) by (nonlinear_arith);
        reveal(on_curve);
    }
    assert(on_curve(95, 90)) by {
        assert(in_bracket(95, 90)) by (nonlinear_arith);
        reveal(on_curve);
    }
}

/// The curve for `v` from 96 to 111.
pub proof fn lemma_curve_from_96()
    ensures
        on_curve(96, 90),
        on_curve(97, 91),
        on_curve(98, 92),
        on_curve(99, 92),
        on_curve(100, 93),
        on_curve(101, 94),
        on_curve(102, 94),
        on_curve(103, 95),
        on_curve(104, 96),
        on_curve(105, 96),
        on_curve(106, 97),
        on_curve(107, 98),
        on_curve(108, 98),
        on_curve(109, 99),
        on_curve(110, 100),
        on_curve(111, 100),
{
    assert(on_curve(96, 90)) by {
        assert(in_bracket(96, 90)) by (nonlinear_arith);
        reveal(on_curve);
    }
    assert(on_curve(97, 91)) by {
        assert(in_bracket(97, 91)) by (nonlinear_arith);
        reveal(on_curve);
    }
    assert(on_curve(98, 92)) by {
        assert(in_bracket(98, 92)) by (nonlinear_arith);
        reveal(on_curve);
    }
    assert(on_curve(99, 92)) by {
        assert(in_bracket(99, 92)) by (nonlinear_arith);
        reveal(on_curve);
    }
    assert(on_curve(100, 93)) by {
        assert(in_bracket(100, 93)) by (nonlinear_arith);
        reveal(on_curve);
    }
    assert(on_curve(101, 94)) by {
        assert(in_bracket(101, 94)) by (nonlinear_arith);
        reveal(on_curve);
    }
    assert(on_curve(102, 94)) by {
        assert(in_bracket(102, 94)) by (nonlinear_arith);
        reveal(on_curve);
    }
    assert(on_curve(103, 95)) by {
        assert(in_bracket(103, 95)) by (nonlinear_arith);
        reveal(on_curve);
    }
    assert(on_curve(104, 96)) by {
        assert(in_bracket(104, 96)) by (nonlinear_arith);
        reveal(on_curve);
    }
    assert(on_curve(105, 96)) by {
        assert(in_bracket(105, 96)) by (nonlinear_arith);
        reveal(on_curve);
    }
    assert(on_curve(106, 97)) by {
        assert(in_bracket(106, 97)) by (nonlinear_arith);
        reveal(on_curve);
    }
    assert(on_curve(107, 98)) by {
        assert(in_bracket(107, 98)) by (nonlinear_arith);
        reveal(on_curve);
    }
    assert(on_curve(108, 98)) by {
        assert(in_bracket(108, 98)) by (nonlinear_arith);
        reveal(on_curve);
    }
    assert(on_curve(109, 99)) by {
        assert(in_bracket(109, 99)) by (nonlinear_arith);
        reveal(on_curve);
    }
    assert(on_curve(110, 100)) by {
        assert(in_bracket(110, 100)) by (nonlinear_arith);
        reveal(on_curve);
    }
    assert(on_curve(111, 100)) by {
        assert(in_bracket(111, 100)) by (nonlinear_arith);
        reveal(on_curve);
    }
}

/// The curve for `v` from 112 to 127.
pub proof fn lemma_curve_from_112()
    ensures
        on_curve(112, 101),
        on_curve(113, 102),
        on_curve(114, 102),
        on_curve(115, 103),
        on_curve(116, 104),
        on_curve(117, 104),
        on_curve(118, 105),
        on_curve(119, 106),
        on_curve(120, 106),
        on_curve(121, 107),
        on_curve(122, 108),
        on_curve(123, 108),
        on_curve(124, 109),
        on_curve(125, 109),
        on_curve(126, 110),
        on_curve(127, 111),
{
    assert(on_curve(112, 101)) by {
        assert(in_bracket(112, 101)) by (nonlinear_arith);
        reveal(on_curve);
    }
    assert(on_curve(113, 102)) by {
        assert(in_bracket(113, 102)) by (nonlinear_arith);
        reveal(on_curve);
    }
    assert(on_curve(114, 102)) by {
        assert(in_bracket(114, 102)) by (nonlinear_arith);
        reveal(on_curve);
    }
    assert(on_curve(115, 103)) by {
        assert(in_bracket(115, 103)) by (nonlinear_arith);
        reveal(on_curve);
    }
    assert(on_curve(116, 104)) by {
        assert(in_bracket(116, 104)) by (nonlinear_arith);
        reveal(on_curve);
    }
    assert(on_curve(117, 104)) by {
        assert(in_bracket(117, 104)) by (nonlinear_arith);
        reveal(on_curve);
    }
    assert(on_curve(118, 105)) by {
        assert(in_bracket(118, 105)) by (nonlinear_arith);
        reveal(on_curve);
    }
    assert(on_curve(119, 106)) by {
        assert(in_bracket(119, 106)) by (nonlinear_arith);
        reveal(on_curve);
    }
    assert(on_curve(120, 106)) by {
        assert(in_bracket(120, 106)) by (nonlinear_arith);
        reveal(on_curve);
    }
    assert(on_curve(121, 107)) by {
        assert(in_bracket(121, 107)) by (nonlinear_arith);
        reveal(on_curve);
    }
    assert(on_curve(122, 108)) by {
        assert(in_bracket(122, 108)) by (nonlinear_arith);
        reveal(on_curve);
    }
    assert(on_curve(123, 108)) by {
        assert(in_bracket(123, 108)) by (nonlinear_arith);
        reveal(on_curve);
    }
    assert(on_curve(124, 109)) by {
        assert(in_bracket(124, 109)) by (nonlinear_arith);
        reveal(on_curve);
    }
    assert(on_curve(125, 109)) by {
        assert(in_bracket(125, 109)) by (nonlinear_arith);
        reveal(on_curve);
    }
    assert(on_curve(126, 110)) by {
        assert(in_bracket(126, 110)) by (nonlinear_arith);
        reveal(on_curve);
    }
    assert(on_curve(127, 111)) by {
        assert(in_bracket(127, 111)) by (nonlinear_arith);
        reveal(on_curve);
    }
}

/// The curve for `v` from 128 to 143.
pub proof fn lemma_curve_from_128()
    ensures
        on_curve(128, 111),
        on_curve(129, 112),
        on_curve(130, 113),
        on_curve(131, 113),
        on_curve(132, 114),
        on_curve(133, 115),
        on_curve(134, 115),
        on_curve(135, 116),
        on_curve(136, 116),
        on_curve(137, 117),
        on_curve(138, 118),
        on_curve(139, 118),
        on_curve(140, 119),
        on_curve(141, 119),
        on_curve(142, 120),
        on_curve(143, 121),
{
    assert(on_curve(128, 111)) by {
        assert(in_bracket(128, 111)) by (nonlinear_arith);
        reveal(on_curve);
    }
    assert(on_curve(129, 112)) by {
        assert(in_bracket(129, 112)) by (nonlinear_arith);
        reveal(on_curve);
    }
    assert(on_curve(130, 113)) by {
        assert(in_bracket(130, 113)) by (nonlinear_arith);
        reveal(on_curve);
    }
    assert(on_curve(131, 113)) by {
        assert(in_bracket(131, 113)) by (nonlinear_arith);
        reveal(on_curve);
    }
    assert(on_curve(132, 114)) by {
        assert(in_bracket(132, 114)) by (nonlinear_arith);
        reveal(on_curve);
    }
    assert(on_curve(133, 115)) by {
        assert(in_bracket(133, 115)) by (nonlinear_arith);
        reveal(on_curve);
    }
    assert(on_curve(134, 115)) by {
        assert(in_bracket(134, 115)) by (nonlinear_arith);
        reveal(on_curve);
    }
    assert(on_curve(135, 116)) by {
        assert(in_bracket(135, 116)) by (nonlinear_arith);
        reveal(on_curve);
    }
    assert(on_curve(136, 116)) by {
        assert(in_bracket(136, 116)) by (nonlinear_arith);
        reveal(on_curve);
    }
    assert(on_curve(137, 117)) by {
        assert(in_bracket(137, 117)) by (nonlinear_arith);
        reveal(on_curve);
    }
    assert(on_curve(138, 118)) by {
        assert(in_bracket(138, 118)) by (nonlinear_arith);
        reveal(on_curve);
    }
    assert(on_curve(139, 118)) by {
        assert(in_bracket(139, 118)) by (nonlinear_arith);
        reveal(on_curve);
    }
    assert(on_curve(140, 119)) by {
        assert(in_bracket(140, 119)) by (nonlinear_arith);
        reveal(on_curve);
    }
    assert(on_curve(141, 119)) by {
        assert(in_bracket(141, 119)) by (nonlinear_arith);
        reveal(on_curve);
    }
    assert(on_curve(142, 120)) by {
        assert(in_bracket(142, 120)) by (nonlinear_arith);
        reveal(on_curve);
    }
    assert(on_curve(143, 121)) by {
        assert(in_bracket(143, 121)) by (nonlinear_arith);
        reveal(on_curve);
    }
}

/// The curve for `v` from 144 to 159.
pub proof fn lemma_curve_from_144()
    ensures
        on_curve(144, 121),
        on_curve(145, 122),
        on_curve(146, 123),
        on_curve(147, 123),
        on_curve(148, 124),
        on_curve(149, 124),
        on_curve(150, 125),
        on_curve(151, 126),
        on_curve(152, 126),
        on_curve(153, 127),
        on_curve(154, 127),
        on_curve(155, 128),
        on_curve(156, 129),
        on_curve(157, 129),
        on_curve(158, 130),
        on_curve(159, 130),
{
    assert(on_curve(144, 121)) by {
        assert(in_bracket(144, 121)) by (nonlinear_arith);
        reveal(on_curve);
    }
    assert(on_curve(145, 122)) by {
        assert(in_bracket(145, 122)) by (nonlinear_arith);
        reveal(on_curve);
    }
    assert(on_curve(146, 123)) by {
        assert(in_bracket(146, 123)) by (nonlinear_arith);
        reveal(on_curve);
    }
    assert(on_curve(147, 123)) by {
        assert(in_bracket(147, 123)) by (nonlinear_arith);
        reveal(on_curve);
    }
    assert(on_curve(148, 124)) by {
        assert(in_bracket(148, 124)) by (nonlinear_arith);
        reveal(on_curve);
    }
    assert(on_curve(149, 124)) by {
        assert(in_bracket(149, 124)) by (nonlinear_arith);
        reveal(on_curve);
    }
    assert(on_curve(150, 125)) by {
        assert(in_bracket(150, 125)) by (nonlinear_arith);
        reveal(on_curve);
    }
    assert(on_curve(151, 126)) by {
        assert(in_bracket(151, 126)) by (nonlinear_arith);
        reveal(on_curve);
    }
    assert(on_curve(152, 126)) by {
        assert(in_bracket(152, 126)) by (nonlinear_arith);
        reveal(on_curve);
    }
    assert(on_curve(153, 127)) by {
        assert(in_bracket(153, 127)) by (nonlinear_arith);
        reveal(on_curve);
    }
    assert(on_curve(154, 127)) by {
        assert(in_bracket(154, 127)) by (nonlinear_arith);
        reveal(on_curve);
    }
    assert(on_curve(155, 128)) by {
        assert(in_bracket(155, 128)) by (nonlinear_arith);
        reveal(on_curve);
    }
    assert(on_curve(156, 129)) by {
        assert(in_bracket(156, 129)) by (nonlinear_arith);
        reveal(on_curve);
    }
    assert(on_curve(157, 129)) by {
        assert(in_bracket(157, 129)) by (nonlinear_arith);
        reveal(on_curve);
    }
    assert(on_curve(158, 130)) by {
        assert(in_bracket(158, 130)) by (nonlinear_arith);
        reveal(on_curve);
    }
    assert(on_curve(159, 130)) by {
        assert(in_bracket(159, 130)) by (nonlinear_arith);
        reveal(on_curve);
    }
}

/// The curve for `v` from 160 to 175.
pub proof fn lemma_curve_from_160()
    ensures
        on_curve(160, 131),
        on_curve(161, 132),
        on_curve(162, 132),
        on_curve(163, 133),
        on_curve(164, 133),
        on_curve(165, 134),
        on_curve(166, 134),
        on_curve(167, 135),
        on_curve(168, 136),
        on_curve(169, 136),
        on_curve(170, 137),
        on_curve(171, 137),
        on_curve(172, 138),
        on_curve(173, 139),
        on_curve(174, 139),
        on_curve(175, 140),
{
    assert(on_curve(160, 131)) by {
        assert(in_bracket(160, 131)) by (nonlinear_arith);
        reveal(on_curve);
    }
    assert(on_curve(161, 132)) by {
        assert(in_bracket(161, 132)) by (nonlinear_arith);
        reveal(on_curve);
    }
    assert(on_curve(162, 132)) by {
        assert(in_bracket(162, 132)) by (nonlinear_arith);
        reveal(on_curve);
    }
    assert(on_curve(163, 133)) by {
        assert(in_bracket(163, 133)) by (nonlinear_arith);
        reveal(on_curve);
    }
    assert(on_curve(164, 133)) by {
        assert(in_bracket(164, 133)) by (nonlinear_arith);
        reveal(on_curve);
    }
    assert(on_curve(165, 134)) by {
        assert(in_bracket(165, 134)) by (nonlinear_arith);
        reveal(on_curve);
    }
    assert(on_curve(166, 134)) by {
        assert(in_bracket(166, 134)) by (nonlinear_arith);
        reveal(on_curve);
    }
    assert(on_curve(167, 135)) by {
        assert(in_bracket(167, 135)) by (nonlinear_arith);
        reveal(on_curve);
    }
    assert(on_curve(168, 136)) by {
        assert(in_bracket(168, 136)) by (nonlinear_arith);
        reveal(on_curve);
    }
    assert(on_curve(169, 136)) by {
        assert(in_bracket(169, 136)) by (nonlinear_arith);
        reveal(on_curve);
    }
    assert(on_curve(170, 137)) by {
        assert(in_bracket(170, 137)) by (nonlinear_arith);
        reveal(on_curve);
    }
    assert(on_curve(171, 137)) by {
        assert(in_bracket(171, 137)) by (nonlinear_arith);
        reveal(on_curve);
    }
    assert(on_curve(172, 138)) by {
        assert(in_bracket(172, 138)) by (nonlinear_arith);
        reveal(on_curve);
    }
    assert(on_curve(173, 139)) by {
        assert(in_bracket(173, 139)) by (nonlinear_arith);
        reveal(on_curve);
    }
    assert(on_curve(174, 139)) by {
        assert(in_bracket(174, 139)) by (nonlinear_arith);
        reveal(on_curve);
    }
    assert(on_curve(175, 140)) by {
        assert(in_bracket(175, 140)) by (nonlinear_arith);
        reveal(on_curve);
    }
}

/// The curve for `v` from 176 to 191.
pub proof fn lemma_curve_from_176()
    ensures
        on_curve(176, 140),
        on_curve(177, 141),
        on_curve(178, 141),
        on_curve(179, 142),
        on_curve(180, 143),
        on_curve(181, 143),
        on_curve(182, 144),
        on_curve(183, 144),
        on_curve(184, 145),
        on_curve(185, 145),
        on_curve(186, 146),
        on_curve(187, 147),
        on_curve(188, 147),
        on_curve(189, 148),
        on_curve(190, 148),
        on_curve(191, 149),
{
    assert(on_curve(176, 140)) by {
        assert(in_bracket(176, 140)) by (nonlinear_arith);
        reveal(on_curve);
    }
    assert(on_curve(177, 141)) by {
        assert(in_bracket(177, 141)) by (nonlinear_arith);
        reveal(on_curve);
    }
    assert(on_curve(178, 141)) by {
        assert(in_bracket(178, 141)) by (nonlinear_arith);
        reveal(on_curve);
    }
    assert(on_curve(179, 142)) by {
        assert(in_bracket(179, 142)) by (nonlinear_arith);
        reveal(on_curve);
    }
    assert(on_curve(180, 143)) by {
        assert(in_bracket(180, 143)) by (nonlinear_arith);
        reveal(on_curve);
    }
    assert(on_curve(181, 143)) by {
        assert(in_bracket(181, 143)) by (nonlinear_arith);
        reveal(on_curve);
    }
    assert(on_curve(182, 144)) by {
        assert(in_bracket(182, 144)) by (nonlinear_arith);
        reveal(on_curve);
    }
    assert(on_curve(183, 144)) by {
        assert(in_bracket(183, 144)) by (nonlinear_arith);
        reveal(on_curve);
    }
    assert(on_curve(184, 145)) by {
        assert(in_bracket(184, 145)) by (nonlinear_arith);
        reveal(on_curve);
    }
    assert(on_curve(185, 145)) by {
        assert(in_bracket(185, 145)) by (nonlinear_arith);
        reveal(on_curve);
    }
    assert(on_curve(186, 146)) by {
        assert(in_bracket(186, 146)) by (nonlinear_arith);
        reveal(on_curve);
    }
    assert(on_curve(187, 147)) by {
        assert(in_bracket(187, 147)) by (nonlinear_arith);
        reveal(on_curve);
    }
    assert(on_curve(188, 147)) by {
        assert(in_bracket(188, 147)) by (nonlinear_arith);
        reveal(on_curve);
    }
    assert(on_curve(189, 148)) by {
        assert(in_bracket(189, 148)) by (nonlinear_arith);
        reveal(on_curve);
    }
    assert(on_curve(190, 148)) by {
        assert(in_bracket(190, 148)) by (nonlinear_arith);
        reveal(on_curve);
    }
    assert(on_curve(191, 149)) by {
        assert(in_bracket(191, 149)) by (nonlinear_arith);
        reveal(on_curve);
    }
}

/// The curve for `v` from 192 to 207.
pub proof fn lemma_curve_from_192()
    ensures
        on_curve(192, 149),
        on_curve(193, 150),
        on_curve(194, 151),
        on_curve(195, 151),
        on_curve(196, 152),
        on_curve(197, 152),
        on_curve(198, 153),
        on_curve(199, 153),
        on_curve(200, 154),
        on_curve(201, 154),
        on_curve(202, 155),
        on_curve(203, 156),
        on_curve(204, 156),
        on_curve(205, 157),
        on_curve(206, 157),
        on_curve(207, 158),
{
    assert(on_curve(192, 149)) by {
        assert(in_bracket(192, 149)) by (nonlinear_arith);
        reveal(on_curve);
    }
    assert(on_curve(193, 150)) by {
        assert(in_bracket(193, 150)) by (nonlinear_arith);
        reveal(on_curve);
    }
    assert(on_curve(194, 151)) by {
        assert(in_bracket(194, 151)) by (nonlinear_arith);
        reveal(on_curve);
    }
    assert(on_curve(195, 151)) by {
        assert(in_bracket(195, 151)) by (nonlinear_arith);
        reveal(on_curve);
    }
    assert(on_curve(196, 152)) by {
        assert(in_bracket(196, 152)) by (nonlinear_arith);
        reveal(on_curve);
    }
    assert(on_curve(197, 152)) by {
        assert(in_bracket(197, 152)) by (nonlinear_arith);
        reveal(on_curve);
    }
    assert(on_curve(198, 153)) by {
        assert(in_bracket(198, 153)) by (nonlinear_arith);
        reveal(on_curve);
    }
    assert(on_curve(199, 153)) by {
        assert(in_bracket(199, 153)) by (nonlinear_arith);
        reveal(on_curve);
    }
    assert(on_curve(200, 154)) by {
        assert(in_bracket(200, 154)) by (nonlinear_arith);
        reveal(on_curve);
    }
    assert(on_curve(201, 154)) by {
        assert(in_bracket(201, 154)) by (nonlinear_arith);
        reveal(on_curve);
    }
    assert(on_curve(202, 155)) by {
        assert(in_bracket(202, 155)) by (nonlinear_arith);
        reveal(on_curve);
    }
    assert(on_curve(203, 156)) by {
        assert(in_bracket(203, 156)) by (nonlinear_arith);
        reveal(on_curve);
    }
    assert(on_curve(204, 156)) by {
        assert(in_bracket(204, 156)) by (nonlinear_arith);
        reveal(on_curve);
    }
    assert(on_curve(205, 157)) by {
        assert(in_bracket(205, 157)) by (nonlinear_arith);
        reveal(on_curve);
    }
    assert(on_curve(206, 157)) by {
        assert(in_bracket(206, 157)) by (nonlinear_arith);
        reveal(on_curve);
    }
    assert(on_curve(207, 158)) by {
        assert(in_bracket(207, 158)) by (nonlinear_arith);
        reveal(on_curve);
    }
}

/// The curve for `v` from 208 to 223.
pub proof fn lemma_curve_from_208()
    ensures
        on_curve(208, 158),
        on_curve(209, 159),
        on_curve(210, 159),
        on_curve(211, 160),
        on_curve(212, 161),
        on_curve(213, 161),
        on_curve(214, 162),
        on_curve(215, 162),
        on_curve(216, 163),
        on_curve(217, 163),
        on_curve(218, 164),
        on_curve(219, 164),
        on_curve(220, 165),
        on_curve(221, 165),
        on_curve(222, 166),
        on_curve(223, 167),
{
    assert(on_curve(208, 158)) by {
        assert(in_bracket(208, 158)) by (nonlinear_arith);
        reveal(on_curve);
    }
    assert(on_curve(209, 159)) by {
        assert(in_bracket(209, 159)) by (nonlinear_arith);
        reveal(on_curve);
    }
    assert(on_curve(210, 159)) by {
        assert(in_bracket(210, 159)) by (nonlinear_arith);
        reveal(on_curve);
    }
    assert(on_curve(211, 160)) by {
        assert(in_bracket(211, 160)) by (nonlinear_arith);
        reveal(on_curve);
    }
    assert(on_curve(212, 161)) by {
        assert(in_bracket(212, 161)) by (nonlinear_arith);
        reveal(on_curve);
    }
    assert(on_curve(213, 161)) by {
        assert(in_bracket(213, 161)) by (nonlinear_arith);
        reveal(on_curve);
    }
    assert(on_curve(214, 162)) by {
        assert(in_bracket(214, 162)) by (nonlinear_arith);
        reveal(on_curve);
    }
    assert(on_curve(215, 162)) by {
        assert(in_bracket(215, 162)) by (nonlinear_arith);
        reveal(on_curve);
    }
    assert(on_curve(216, 163)) by {
        assert(in_bracket(216, 163)) by (nonlinear_arith);
        reveal(on_curve);
    }
    assert(on_curve(217, 163)) by {
        assert(in_bracket(217, 163)) by (nonlinear_arith);
        reveal(on_curve);
    }
    assert(on_curve(218, 164)) by {
        assert(in_bracket(218, 164)) by (nonlinear_arith);
        reveal(on_curve);
    }
    assert(on_curve(219, 164)) by {
        assert(in_bracket(219, 164)) by (nonlinear_arith);
        reveal(on_curve);
    }
    assert(on_curve(220, 165)) by {
        assert(in_bracket(220, 165)) by (nonlinear_arith);
        reveal(on_curve);
    }
    assert(on_curve(221, 165)) by {
        assert(in_bracket(221, 165)) by (nonlinear_arith);
        reveal(on_curve);
    }
    assert(on_curve(222, 166)) by {
        assert(in_bracket(222, 166)) by (nonlinear_arith);
        reveal(on_curve);
    }
    assert(on_curve(223, 167)) by {
        assert(in_bracket(223, 167)) by (nonlinear_arith);
        reveal(on_curve);
    }
}

/// The curve for `v` from 224 to 239.
pub proof fn lemma_curve_from_224()
    ensures
        on_curve(224, 167),
        on_curve(225, 168),
        on_curve(226, 168),
        on_curve(227, 169),
        on_curve(228, 169),
        on_curve(229, 170),
        on_curve(230, 170),
        on_curve(231, 171),
        on_curve(232, 171),
        on_curve(233, 172),
        on_curve(234, 172),
        on_curve(235, 173),
        on_curve(236, 173),
        on_curve(237, 174),
        on_curve(238, 175),
        on_curve(239, 175),
{
    assert(on_curve(224, 167)) by {
        assert(in_bracket(224, 167)) by (nonlinear_arith);
        reveal(on_curve);
    }
    assert(on_curve(225, 168)) by {
        assert(in_bracket(225, 168)) by (nonlinear_arith);
        reveal(on_curve);
    }
    assert(on_curve(226, 168)) by {
        assert(in_bracket(226, 168)) by (nonlinear_arith);
        reveal(on_curve);
    }
    assert(on_curve(227, 169)) by {
        assert(in_bracket(227, 169)) by (nonlinear_arith);
        reveal(on_curve);
    }
    assert(on_curve(228, 169)) by {
        assert(in_bracket(228, 169)) by (nonlinear_arith);
        reveal(on_curve);
    }
    assert(on_curve(229, 170)) by {
        assert(in_bracket(229, 170)) by (nonlinear_arith);
        reveal(on_curve);
    }
    assert(on_curve(230, 170)) by {
        assert(in_bracket(230, 170)) by (nonlinear_arith);
        reveal(on_curve);
    }
    assert(on_curve(231, 171)) by {
        assert(in_bracket(231, 171)) by (nonlinear_arith);
        reveal(on_curve);
    }
    assert(on_curve(232, 171)) by {
        assert(in_bracket(232, 171)) by (nonlinear_arith);
        reveal(on_curve);
    }
    assert(on_curve(233, 172)) by {
        assert(in_bracket(233, 172)) by (nonlinear_arith);
        reveal(on_curve);
    }
    assert(on_curve(234, 172)) by {
        assert(in_bracket(234, 172)) by (nonlinear_arith);
        reveal(on_curve);
    }
    assert(on_curve(235, 173)) by {
        assert(in_bracket(235, 173)) by (nonlinear_arith);
        reveal(on_curve);
    }
    assert(on_curve(236, 173)) by {
        assert(in_bracket(236, 173)) by (nonlinear_arith);
        reveal(on_curve);
    }
    assert(on_curve(237, 174)) by {
        assert(in_bracket(237, 174)) by (nonlinear_arith);
        reveal(on_curve);
    }
    assert(on_curve(238, 175)) by {
        assert(in_bracket(238, 175)) by (nonlinear_arith);
        reveal(on_curve);
    }
    assert(on_curve(239, 175)) by {
        assert(in_bracket(239, 175)) by (nonlinear_arith);
        reveal(on_curve);
    }
}

/// The curve for `v` from 240 to 255.
pub proof fn lemma_curve_from_240()
    ensures
        on_curve(240, 176),
        on_curve(241, 176),
        on_curve(242, 177),
        on_curve(243, 177),
        on_curve(244, 178),
        on_curve(245, 178),
        on_curve(246, 179),
        on_curve(247, 179),
        on_curve(248, 180),
        on_curve(249, 180),
        on_curve(250, 181),
        on_curve(251, 181),
        on_curve(252, 182),
        on_curve(253, 182),
        on_curve(254, 183),
        on_curve(255, 184),
{
    assert(on_curve(240, 176)) by {
        assert(in_bracket(240, 176)) by (nonlinear_arith);
        reveal(on_curve);
    }
    assert(on_curve(241, 176)) by {
        assert(in_bracket(241, 176)) by (nonlinear_arith);
        reveal(on_curve);
    }
    assert(on_curve(242, 177)) by {
        assert(in_bracket(242, 177)) by (nonlinear_arith);
        reveal(on_curve);
    }
    assert(on_curve(243, 177)) by {
        assert(in_bracket(243, 177)) by (nonlinear_arith);
        reveal(on_curve);
    }
    assert(on_curve(244, 178)) by {
        assert(in_bracket(244, 178)) by (nonlinear_arith);
        reveal(on_curve);
    }
    assert(on_curve(245, 178)) by {
        assert(in_bracket(245, 178)) by (nonlinear_arith);
        reveal(on_curve);
    }
    assert(on_curve(246, 179)) by {
        assert(in_bracket(246, 179)) by (nonlinear_arith);
        reveal(on_curve);
    }
    assert(on_curve(247, 179)) by {
        assert(in_bracket(247, 179)) by (nonlinear_arith);
        reveal(on_curve);
    }
    assert(on_curve(248, 180)) by {
        assert(in_bracket(248, 180)) by (nonlinear_arith);
        reveal(on_curve);
    }
    assert(on_curve(249, 180)) by {
        assert(in_bracket(249, 180)) by (nonlinear_arith);
        reveal(on_curve);
    }
    assert(on_curve(250, 181)) by {
        assert(in_bracket(250, 181)) by (nonlinear_arith);
        reveal(on_curve);
    }
    assert(on_curve(251, 181)) by {
        assert(in_bracket(251, 181)) by (nonlinear_arith);
        reveal(on_curve);
    }
    assert(on_curve(252, 182)) by {
        assert(in_bracket(252, 182)) by (nonlinear_arith);
        reveal(on_curve);
    }
    assert(on_curve(253, 182)) by {
        assert(in_bracket(253, 182)) by (nonlinear_arith);
        reveal(on_curve);
    }
    assert(on_curve(254, 183)) by {
        assert(in_bracket(254, 183)) by (nonlinear_arith);
        reveal(on_curve);
    }
    assert(on_curve(255, 184)) by {
        assert(in_bracket(255, 184)) by (nonlinear_arith);
        reveal(on_curve);
    }
}

/// At most one value is the power law of `v`, rounded down.
pub proof fn lemma_on_curve_unique(v: int, j: int, k: int)
    requires
        on_curve(v, j),
        on_curve(v, k),
    ensures
        j == k,
{
    reveal(on_curve);
    let unit = pow200(255);
    assert(unit > 0) by (nonlinear_arith)
        requires
            unit == pow200(255),
    ;
    if j < k {
        lemma_pow277_increases(j + 1, k);
        lemma_product_increases(pow277(j + 1), pow277(k), unit, unit);
    } else if k < j {
        lemma_pow277_increases(k + 1, j);
        lemma_product_increases(pow277(k + 1), pow277(j), unit, unit);
    }
}

proof fn lemma_pow277_increases(a: int, b: int)
    requires
        0 <= a <= b,
    ensures
        0 <= pow277(a) <= pow277(b),
{
    let a2 = a * a;
    let b2 = b * b;
    lemma_product_increases(a, b, a, b);
    let a4 = a2 * a2;
    let b4 = b2 * b2;
    lemma_product_increases(a2, b2, a2, b2);
    let a8 = a4 * a4;
    let b8 = b4 * b4;
    lemma_product_increases(a4, b4, a4, b4);
    let a16 = a8 * a8;
    let b16 = b8 * b8;
    lemma_product_increases(a8, b8, a8, b8);
    let a32 = a16 * a16;
    let b32 = b16 * b16;
    lemma_product_increases(a16, b16, a16, b16);
    let a64 = a32 * a32;
    let b64 = b32 * b32;
    lemma_product_increases(a32, b32, a32, b32);
    let a128 = a64 * a64;
    let b128 = b64 * b64;
    lemma_product_increases(a64, b64, a64, b64);
    let a256 = a128 * a128;
    let b256 = b128 * b128;
    lemma_product_increases(a128, b128, a128, b128);
    lemma_product_increases(a256, b256, a16, b16);
    lemma_product_increases(a256 * a16, b256 * b16, a4, b4);
    lemma_product_increases(a256 * a16 * a4, b256 * b16 * b4, a, b);
}

proof fn lemma_product_increases(a: int, b: int, c: int, d: int)
    requires
        0 <= a <= b,
        0 <= c <= d,
    ensures
        0 <= a * c <= b * d,
{
    assert(0 <= a * c <= b * d) by (nonlinear_arith)
        requires
            0 <= a <= b,
            0 <= c <= d,
    ;
}

} // verus!
