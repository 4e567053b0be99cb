//! CRC-16/CCITT (polynomial 0x1021, initial value 0xFFFF, no reflection,
//! no final XOR), computed bit by bit and with a lookup table.

use vstd::prelude::*;

verus! {

/// One step of the bitwise CRC: shift left, and fold in the polynomial when
/// the bit shifted out was set.
pub open spec fn crc_shift(c: u16) -> u16 {
    if c & 0x8000u16 != 0u16 {
        ((c << 1u16) ^ 0x1021u16) as u16
    } else {
        (c << 1u16) as u16
    }
}

/// `n` bitwise steps.
pub open spec fn crc_shift_n(c: u16, n: nat) -> u16
    decreases n,
{
    if n == 0 {
        c
    } else {
        crc_shift(crc_shift_n(c, (n - 1) as nat))
    }
}

/// The eight bitwise steps that process one byte, written out.
pub open spec fn crc_shift8(c: u16) -> u16 {
    crc_shift(crc_shift(crc_shift(crc_shift(crc_shift(crc_shift(crc_shift(crc_shift(c))))))))
}

/// Bitwise update of the register `crc` by the byte `b`.
pub open spec fn crc_update_byte(crc: u16, b: u8) -> u16 {
    crc_shift8((crc ^ ((b as u16) << 8u16)) as u16)
}

/// CRC-16/CCITT of `data`, defined byte by byte with the bitwise update.
pub open spec fn spec_crc16_ccitt(data: Seq<u8>) -> u16
    decreases data.len(),
{
    if data.len() == 0 {
        0xFFFFu16
    } else {
        crc_update_byte(spec_crc16_ccitt(data.drop_last()), data.last())
    }
}

/// Entry `i` of the lookup table: the bitwise CRC steps applied to `i << 8`.
pub open spec fn crc_table_entry(i: u8) -> u16 {
    crc_shift8(((i as u16) << 8u16) as u16)
}

/// Table-driven update of the register `crc` by the byte `b`.
pub open spec fn crc_update_byte_table(crc: u16, b: u8) -> u16 {
    ((crc << 8u16) ^ crc_table_entry(((crc >> 8u16) ^ (b as u16)) as u8)) as u16
}

/// CRC-16/CCITT of `data`, defined byte by byte with the table-driven update.
pub open spec fn spec_crc16_ccitt_table(data: Seq<u8>) -> u16
    decreases data.len(),
{
    if data.len() == 0 {
        0xFFFFu16
    } else {
        crc_update_byte_table(spec_crc16_ccitt_table(data.drop_last()), data.last())
    }
}

proof fn lemma_crc_shift_n_8(c: u16)
    ensures
        crc_shift_n(c, 8) == crc_shift8(c),
{
    reveal_with_fuel(crc_shift_n, 9);
}

/// The table-driven byte update computes the same register as the bitwise one.
pub proof fn lemma_update_byte_table(crc: u16, b: u8)
    ensures
        crc_update_byte_table(crc, b) == crc_update_byte(crc, b),
{
    assert(crc_update_byte_table(crc, b) == crc_update_byte(crc, b)) by (bit_vector);
}

/// The table-driven and the bitwise CRC agree on every input.
pub proof fn lemma_crc16_table_matches_bitwise(data: Seq<u8>)
    ensures
        spec_crc16_ccitt_table(data) == spec_crc16_ccitt(data),
    decreases data.len(),
{
    if data.len() > 0 {
        lemma_crc16_table_matches_bitwise(data.drop_last());
        lemma_update_byte_table(spec_crc16_ccitt(data.drop_last()), data.last());
    }
}

/// Bitwise CRC-16/CCITT, as computed on the board.
pub fn crc16_ccitt(data: &[u8]) -> (crc: u16)
    ensures
        crc == spec_crc16_ccitt(data@),
{
    let mut crc: u16 = 0xFFFF;
    let mut i: usize = 0;
    while i < data.len()
        invariant
            i <= data.len(),
            crc == spec_crc16_ccitt(data@.take(i as int)),
        decreases data.len() - i,
    {
        let byte = data[i];
        crc = crc ^ ((byte as u16) << 8u16);
        let ghost start = crc;
        let mut j: u32 = 0;
        while j < 8
            invariant
                j <= 8,
                crc == crc_shift_n(start, j as nat),
            decreases 8 - j,
        {
            crc = if crc & 0x8000 != 0 {
                (crc << 1u16) ^ 0x1021
            } else {
                crc << 1u16
            };
            j += 1;
        }
        proof {
            lemma_crc_shift_n_8(start);
            assert(data@.take(i + 1).drop_last() =~= data@.take(i as int));
        }
        i += 1;
    }
    assert(data@.take(data.len() as int) =~= data@);
    crc
}

/// Lookup table: entry `i` is the CRC register after shifting `i << 8`
/// through the eight bitwise steps.
const CRC16_TABLE: [u16; 256] = [
    0x0000, 0x1021, 0x2042, 0x3063, 0x4084, 0x50A5, 0x60C6, 0x70E7,
    0x8108, 0x9129, 0xA14A, 0xB16B, 0xC18C, 0xD1AD, 0xE1CE, 0xF1EF,
    0x1231, 0x0210, 0x3273, 0x2252, 0x52B5, 0x4294, 0x72F7, 0x62D6,
    0x9339, 0x8318, 0xB37B, 0xA35A, 0xD3BD, 0xC39C, 0xF3FF, 0xE3DE,
    0x2462, 0x3443, 0x0420, 0x1401, 0x64E6, 0x74C7, 0x44A4, 0x5485,
    0xA56A, 0xB54B, 0x8528, 0x9509, 0xE5EE, 0xF5CF, 0xC5AC, 0xD58D,
    0x3653, 0x2672, 0x1611, 0x0630, 0x76D7, 0x66F6, 0x5695, 0x46B4,
    0xB75B, 0xA77A, 0x9719, 0x8738, 0xF7DF, 0xE7FE, 0xD79D, 0xC7BC,
    0x48C4, 0x58E5, 0x6886, 0x78A7, 0x0840, 0x1861, 0x2802, 0x3823,
    0xC9CC, 0xD9ED, 0xE98E, 0xF9AF, 0x8948, 0x9969, 0xA90A, 0xB92B,
    0x5AF5, 0x4AD4, 0x7AB7, 0x6A96, 0x1A71, 0x0A50, 0x3A33, 0x2A12,
    0xDBFD, 0xCBDC, 0xFBBF, 0xEB9E, 0x9B79, 0x8B58, 0xBB3B, 0xAB1A,
    0x6CA6, 0x7C87, 0x4CE4, 0x5CC5, 0x2C22, 0x3C03, 0x0C60, 0x1C41,
    0xEDAE, 0xFD8F, 0xCDEC, 0xDDCD, 0xAD2A, 0xBD0B, 0x8D68, 0x9D49,
    0x7E97, 0x6EB6, 0x5ED5, 0x4EF4, 0x3E13, 0x2E32, 0x1E51, 0x0E70,
    0xFF9F, 0xEFBE, 0xDFDD, 0xCFFC, 0xBF1B, 0xAF3A, 0x9F59, 0x8F78,
    0x9188, 0x81A9, 0xB1CA, 0xA1EB, 0xD10C, 0xC12D, 0xF14E, 0xE16F,
    0x1080, 0x00A1, 0x30C2, 0x20E3, 0x5004, 0x4025, 0x7046, 0x6067,
    0x83B9, 0x9398, 0xA3FB, 0xB3DA, 0xC33D, 0xD31C, 0xE37F, 0xF35E,
    0x02B1, 0x1290, 0x22F3, 0x32D2, 0x4235, 0x5214, 0x6277, 0x7256,
    0xB5EA, 0xA5CB, 0x95A8, 0x8589, 0xF56E, 0xE54F, 0xD52C, 0xC50D,
    0x34E2, 0x24C3, 0x14A0, 0x0481, 0x7466, 0x6447, 0x5424, 0x4405,
    0xA7DB, 0xB7FA, 0x8799, 0x97B8, 0xE75F, 0xF77E, 0xC71D, 0xD73C,
    0x26D3, 0x36F2, 0x0691, 0x16B0, 0x6657, 0x7676, 0x4615, 0x5634,
    0xD94C, 0xC96D, 0xF90E, 0xE92F, 0x99C8, 0x89E9, 0xB98A, 0xA9AB,
    0x5844, 0x4865, 0x7806, 0x6827, 0x18C0, 0x08E1, 0x3882, 0x28A3,
    0xCB7D, 0xDB5C, 0xEB3F, 0xFB1E, 0x8BF9, 0x9BD8, 0xABBB, 0xBB9A,
    0x4A75, 0x5A54, 0x6A37, 0x7A16, 0x0AF1, 0x1AD0, 0x2AB3, 0x3A92,
    0xFD2E, 0xED0F, 0xDD6C, 0xCD4D, 0xBDAA, 0xAD8B, 0x9DE8, 0x8DC9,
    0x7C26, 0x6C07, 0x5C64, 0x4C45, 0x3CA2, 0x2C83, 0x1CE0, 0x0CC1,
    0xEF1F, 0xFF3E, 0xCF5D, 0xDF7C, 0xAF9B, 0xBFBA, 0x8FD9, 0x9FF8,
    0x6E17, 0x7E36, 0x4E55, 0x5E74, 0x2E93, 0x3EB2, 0x0ED1, 0x1EF0,
];

proof fn lemma_crc_table_values()
    ensures
        ({
        &&& crc_table_entry(0u8) == 0x0000u16
        &&& crc_table_entry(1u8) == 0x1021u16
        &&& crc_table_entry(2u8) == 0x2042u16
        &&& crc_table_entry(3u8) == 0x3063u16
        &&& crc_table_entry(4u8) == 0x4084u16
        &&& crc_table_entry(5u8) == 0x50A5u16
        &&& crc_table_entry(6u8) == 0x60C6u16
        &&& crc_table_entry(7u8) == 0x70E7u16
        &&& crc_table_entry(8u8) == 0x8108u16
        &&& crc_table_entry(9u8) == 0x9129u16
        &&& crc_table_entry(10u8) == 0xA14Au16
        &&& crc_table_entry(11u8) == 0xB16Bu16
        &&& crc_table_entry(12u8) == 0xC18Cu16
        &&& crc_table_entry(13u8) == 0xD1ADu16
        &&& crc_table_entry(14u8) == 0xE1CEu16
        &&& crc_table_entry(15u8) == 0xF1EFu16
        &&& crc_table_entry(16u8) == 0x1231u16
        &&& crc_table_entry(17u8) == 0x0210u16
        &&& crc_table_entry(18u8) == 0x3273u16
        &&& crc_table_entry(19u8) == 0x2252u16
        &&& crc_table_entry(20u8) == 0x52B5u16
        &&& crc_table_entry(21u8) == 0x4294u16
        &&& crc_table_entry(22u8) == 0x72F7u16
        &&& crc_table_entry(23u8) == 0x62D6u16
        &&& crc_table_entry(24u8) == 0x9339u16
        &&& crc_table_entry(25u8) == 0x8318u16
        &&& crc_table_entry(26u8) == 0xB37Bu16
        &&& crc_table_entry(27u8) == 0xA35Au16
        &&& crc_table_entry(28u8) == 0xD3BDu16
        &&& crc_table_entry(29u8) == 0xC39Cu16
        &&& crc_table_entry(30u8) == 0xF3FFu16
        &&& crc_table_entry(31u8) == 0xE3DEu16
        &&& crc_table_entry(32u8) == 0x2462u16
        &&& crc_table_entry(33u8) == 0x3443u16
        &&& crc_table_entry(34u8) == 0x0420u16
        &&& crc_table_entry(35u8) == 0x1401u16
        &&& crc_table_entry(36u8) == 0x64E6u16
        &&& crc_table_entry(37u8) == 0x74C7u16
        &&& crc_table_entry(38u8) == 0x44A4u16
        &&& crc_table_entry(39u8) == 0x5485u16
        &&& crc_table_entry(40u8) == 0xA56Au16
        &&& crc_table_entry(41u8) == 0xB54Bu16
        &&& crc_table_entry(42u8) == 0x8528u16
        &&& crc_table_entry(43u8) == 0x9509u16
        &&& crc_table_entry(44u8) == 0xE5EEu16
        &&& crc_table_entry(45u8) == 0xF5CFu16
        &&& crc_table_entry(46u8) == 0xC5ACu16
        &&& crc_table_entry(47u8) == 0xD58Du16
        &&& crc_table_entry(48u8) == 0x3653u16
        &&& crc_table_entry(49u8) == 0x2672u16
        &&& crc_table_entry(50u8) == 0x1611u16
        &&& crc_table_entry(51u8) == 0x0630u16
        &&& crc_table_entry(52u8) == 0x76D7u16
        &&& crc_table_entry(53u8) == 0x66F6u16
        &&& crc_table_entry(54u8) == 0x5695u16
        &&& crc_table_entry(55u8) == 0x46B4u16
        &&& crc_table_entry(56u8) == 0xB75Bu16
        &&& crc_table_entry(57u8) == 0xA77Au16
        &&& crc_table_entry(58u8) == 0x9719u16
        &&& crc_table_entry(59u8) == 0x8738u16
        &&& crc_table_entry(60u8) == 0xF7DFu16
        &&& crc_table_entry(61u8) == 0xE7FEu16
        &&& crc_table_entry(62u8) == 0xD79Du16
        &&& crc_table_entry(63u8) == 0xC7BCu16
        &&& crc_table_entry(64u8) == 0x48C4u16
        &&& crc_table_entry(65u8) == 0x58E5u16
        &&& crc_table_entry(66u8) == 0x6886u16
        &&& crc_table_entry(67u8) == 0x78A7u16
        &&& crc_table_entry(68u8) == 0x0840u16
        &&& crc_table_entry(69u8) == 0x1861u16
        &&& crc_table_entry(70u8) == 0x2802u16
        &&& crc_table_entry(71u8) == 0x3823u16
        &&& crc_table_entry(72u8) == 0xC9CCu16
        &&& crc_table_entry(73u8) == 0xD9EDu16
        &&& crc_table_entry(74u8) == 0xE98Eu16
        &&& crc_table_entry(75u8) == 0xF9AFu16
        &&& crc_table_entry(76u8) == 0x8948u16
        &&& crc_table_entry(77u8) == 0x9969u16
        &&& crc_table_entry(78u8) == 0xA90Au16
        &&& crc_table_entry(79u8) == 0xB92Bu16
        &&& crc_table_entry(80u8) == 0x5AF5u16
        &&& crc_table_entry(81u8) == 0x4AD4u16
        &&& crc_table_entry(82u8) == 0x7AB7u16
        &&& crc_table_entry(83u8) == 0x6A96u16
        &&& crc_table_entry(84u8) == 0x1A71u16
        &&& crc_table_entry(85u8) == 0x0A50u16
        &&& crc_table_entry(86u8) == 0x3A33u16
        &&& crc_table_entry(87u8) == 0x2A12u16
        &&& crc_table_entry(88u8) == 0xDBFDu16
        &&& crc_table_entry(89u8) == 0xCBDCu16
        &&& crc_table_entry(90u8) == 0xFBBFu16
        &&& crc_table_entry(91u8) == 0xEB9Eu16
        &&& crc_table_entry(92u8) == 0x9B79u16
        &&& crc_table_entry(93u8) == 0x8B58u16
        &&& crc_table_entry(94u8) == 0xBB3Bu16
        &&& crc_table_entry(95u8) == 0xAB1Au16
        &&& crc_table_entry(96u8) == 0x6CA6u16
        &&& crc_table_entry(97u8) == 0x7C87u16
        &&& crc_table_entry(98u8) == 0x4CE4u16
        &&& crc_table_entry(99u8) == 0x5CC5u16
        &&& crc_table_entry(100u8) == 0x2C22u16
        &&& crc_table_entry(101u8) == 0x3C03u16
        &&& crc_table_entry(102u8) == 0x0C60u16
        &&& crc_table_entry(103u8) == 0x1C41u16
        &&& crc_table_entry(104u8) == 0xEDAEu16
        &&& crc_table_entry(105u8) == 0xFD8Fu16
        &&& crc_table_entry(106u8) == 0xCDECu16
        &&& crc_table_entry(107u8) == 0xDDCDu16
        &&& crc_table_entry(108u8) == 0xAD2Au16
        &&& crc_table_entry(109u8) == 0xBD0Bu16
        &&& crc_table_entry(110u8) == 0x8D68u16
        &&& crc_table_entry(111u8) == 0x9D49u16
        &&& crc_table_entry(112u8) == 0x7E97u16
        &&& crc_table_entry(113u8) == 0x6EB6u16
        &&& crc_table_entry(114u8) == 0x5ED5u16
        &&& crc_table_entry(115u8) == 0x4EF4u16
        &&& crc_table_entry(116u8) == 0x3E13u16
        &&& crc_table_entry(117u8) == 0x2E32u16
        &&& crc_table_entry(118u8) == 0x1E51u16
        &&& crc_table_entry(119u8) == 0x0E70u16
        &&& crc_table_entry(120u8) == 0xFF9Fu16
        &&& crc_table_entry(121u8) == 0xEFBEu16
        &&& crc_table_entry(122u8) == 0xDFDDu16
        &&& crc_table_entry(123u8) == 0xCFFCu16
        &&& crc_table_entry(124u8) == 0xBF1Bu16
        &&& crc_table_entry(125u8) == 0xAF3Au16
        &&& crc_table_entry(126u8) == 0x9F59u16
        &&& crc_table_entry(127u8) == 0x8F78u16
        &&& crc_table_entry(128u8) == 0x9188u16
        &&& crc_table_entry(129u8) == 0x81A9u16
        &&& crc_table_entry(130u8) == 0xB1CAu16
        &&& crc_table_entry(131u8) == 0xA1EBu16
        &&& crc_table_entry(132u8) == 0xD10Cu16
        &&& crc_table_entry(133u8) == 0xC12Du16
        &&& crc_table_entry(134u8) == 0xF14Eu16
        &&& crc_table_entry(135u8) == 0xE16Fu16
        &&& crc_table_entry(136u8) == 0x1080u16
        &&& crc_table_entry(137u8) == 0x00A1u16
        &&& crc_table_entry(138u8) == 0x30C2u16
        &&& crc_table_entry(139u8) == 0x20E3u16
        &&& crc_table_entry(140u8) == 0x5004u16
        &&& crc_table_entry(141u8) == 0x4025u16
        &&& crc_table_entry(142u8) == 0x7046u16
        &&& crc_table_entry(143u8) == 0x6067u16
        &&& crc_table_entry(144u8) == 0x83B9u16
        &&& crc_table_entry(145u8) == 0x9398u16
        &&& crc_table_entry(146u8) == 0xA3FBu16
        &&& crc_table_entry(147u8) == 0xB3DAu16
        &&& crc_table_entry(148u8) == 0xC33Du16
        &&& crc_table_entry(149u8) == 0xD31Cu16
        &&& crc_table_entry(150u8) == 0xE37Fu16
        &&& crc_table_entry(151u8) == 0xF35Eu16
        &&& crc_table_entry(152u8) == 0x02B1u16
        &&& crc_table_entry(153u8) == 0x1290u16
        &&& crc_table_entry(154u8) == 0x22F3u16
        &&& crc_table_entry(155u8) == 0x32D2u16
        &&& crc_table_entry(156u8) == 0x4235u16
        &&& crc_table_entry(157u8) == 0x5214u16
        &&& crc_table_entry(158u8) == 0x6277u16
        &&& crc_table_entry(159u8) == 0x7256u16
        &&& crc_table_entry(160u8) == 0xB5EAu16
        &&& crc_table_entry(161u8) == 0xA5CBu16
        &&& crc_table_entry(162u8) == 0x95A8u16
        &&& crc_table_entry(163u8) == 0x8589u16
        &&& crc_table_entry(164u8) == 0xF56Eu16
        &&& crc_table_entry(165u8) == 0xE54Fu16
        &&& crc_table_entry(166u8) == 0xD52Cu16
        &&& crc_table_entry(167u8) == 0xC50Du16
        &&& crc_table_entry(168u8) == 0x34E2u16
        &&& crc_table_entry(169u8) == 0x24C3u16
        &&& crc_table_entry(170u8) == 0x14A0u16
        &&& crc_table_entry(171u8) == 0x0481u16
        &&& crc_table_entry(172u8) == 0x7466u16
        &&& crc_table_entry(173u8) == 0x6447u16
        &&& crc_table_entry(174u8) == 0x5424u16
        &&& crc_table_entry(175u8) == 0x4405u16
        &&& crc_table_entry(176u8) == 0xA7DBu16
        &&& crc_table_entry(177u8) == 0xB7FAu16
        &&& crc_table_entry(178u8) == 0x8799u16
        &&& crc_table_entry(179u8) == 0x97B8u16
        &&& crc_table_entry(180u8) == 0xE75Fu16
        &&& crc_table_entry(181u8) == 0xF77Eu16
        &&& crc_table_entry(182u8) == 0xC71Du16
        &&& crc_table_entry(183u8) == 0xD73Cu16
        &&& crc_table_entry(184u8) == 0x26D3u16
        &&& crc_table_entry(185u8) == 0x36F2u16
        &&& crc_table_entry(186u8) == 0x0691u16
        &&& crc_table_entry(187u8) == 0x16B0u16
        &&& crc_table_entry(188u8) == 0x6657u16
        &&& crc_table_entry(189u8) == 0x7676u16
        &&& crc_table_entry(190u8) == 0x4615u16
        &&& crc_table_entry(191u8) == 0x5634u16
        &&& crc_table_entry(192u8) == 0xD94Cu16
        &&& crc_table_entry(193u8) == 0xC96Du16
        &&& crc_table_entry(194u8) == 0xF90Eu16
        &&& crc_table_entry(195u8) == 0xE92Fu16
        &&& crc_table_entry(196u8) == 0x99C8u16
        &&& crc_table_entry(197u8) == 0x89E9u16
        &&& crc_table_entry(198u8) == 0xB98Au16
        &&& crc_table_entry(199u8) == 0xA9ABu16
        &&& crc_table_entry(200u8) == 0x5844u16
        &&& crc_table_entry(201u8) == 0x4865u16
        &&& crc_table_entry(202u8) == 0x7806u16
        &&& crc_table_entry(203u8) == 0x6827u16
        &&& crc_table_entry(204u8) == 0x18C0u16
        &&& crc_table_entry(205u8) == 0x08E1u16
        &&& crc_table_entry(206u8) == 0x3882u16
        &&& crc_table_entry(207u8) == 0x28A3u16
        &&& crc_table_entry(208u8) == 0xCB7Du16
        &&& crc_table_entry(209u8) == 0xDB5Cu16
        &&& crc_table_entry(210u8) == 0xEB3Fu16
        &&& crc_table_entry(211u8) == 0xFB1Eu16
        &&& crc_table_entry(212u8) == 0x8BF9u16
        &&& crc_table_entry(213u8) == 0x9BD8u16
        &&& crc_table_entry(214u8) == 0xABBBu16
        &&& crc_table_entry(215u8) == 0xBB9Au16
        &&& crc_table_entry(216u8) == 0x4A75u16
        &&& crc_table_entry(217u8) == 0x5A54u16
        &&& crc_table_entry(218u8) == 0x6A37u16
        &&& crc_table_entry(219u8) == 0x7A16u16
        &&& crc_table_entry(220u8) == 0x0AF1u16
        &&& crc_table_entry(221u8) == 0x1AD0u16
        &&& crc_table_entry(222u8) == 0x2AB3u16
        &&& crc_table_entry(223u8) == 0x3A92u16
        &&& crc_table_entry(224u8) == 0xFD2Eu16
        &&& crc_table_entry(225u8) == 0xED0Fu16
        &&& crc_table_entry(226u8) == 0xDD6Cu16
        &&& crc_table_entry(227u8) == 0xCD4Du16
        &&& crc_table_entry(228u8) == 0xBDAAu16
        &&& crc_table_entry(229u8) == 0xAD8Bu16
        &&& crc_table_entry(230u8) == 0x9DE8u16
        &&& crc_table_entry(231u8) == 0x8DC9u16
        &&& crc_table_entry(232u8) == 0x7C26u16
        &&& crc_table_entry(233u8) == 0x6C07u16
        &&& crc_table_entry(234u8) == 0x5C64u16
        &&& crc_table_entry(235u8) == 0x4C45u16
        &&& crc_table_entry(236u8) == 0x3CA2u16
        &&& crc_table_entry(237u8) == 0x2C83u16
        &&& crc_table_entry(238u8) == 0x1CE0u16
        &&& crc_table_entry(239u8) == 0x0CC1u16
        &&& crc_table_entry(240u8) == 0xEF1Fu16
        &&& crc_table_entry(241u8) == 0xFF3Eu16
        &&& crc_table_entry(242u8) == 0xCF5Du16
        &&& crc_table_entry(243u8) == 0xDF7Cu16
        &&& crc_table_entry(244u8) == 0xAF9Bu16
        &&& crc_table_entry(245u8) == 0xBFBAu16
        &&& crc_table_entry(246u8) == 0x8FD9u16
        &&& crc_table_entry(247u8) == 0x9FF8u16
        &&& crc_table_entry(248u8) == 0x6E17u16
        &&& crc_table_entry(249u8) == 0x7E36u16
        &&& crc_table_entry(250u8) == 0x4E55u16
        &&& crc_table_entry(251u8) == 0x5E74u16
        &&& crc_table_entry(252u8) == 0x2E93u16
        &&& crc_table_entry(253u8) == 0x3EB2u16
        &&& crc_table_entry(254u8) == 0x0ED1u16
        &&& crc_table_entry(255u8) == 0x1EF0u16
        }),
{
    assert({
        &&& crc_table_entry(0u8) == 0x0000u16
        &&& crc_table_entry(1u8) == 0x1021u16
        &&& crc_table_entry(2u8) == 0x2042u16
        &&& crc_table_entry(3u8) == 0x3063u16
        &&& crc_table_entry(4u8) == 0x4084u16
        &&& crc_table_entry(5u8) == 0x50A5u16
        &&& crc_table_entry(6u8) == 0x60C6u16
        &&& crc_table_entry(7u8) == 0x70E7u16
        &&& crc_table_entry(8u8) == 0x8108u16
        &&& crc_table_entry(9u8) == 0x9129u16
        &&& crc_table_entry(10u8) == 0xA14Au16
        &&& crc_table_entry(11u8) == 0xB16Bu16
        &&& crc_table_entry(12u8) == 0xC18Cu16
        &&& crc_table_entry(13u8) == 0xD1ADu16
        &&& crc_table_entry(14u8) == 0xE1CEu16
        &&& crc_table_entry(15u8) == 0xF1EFu16
        &&& crc_table_entry(16u8) == 0x1231u16
        &&& crc_table_entry(17u8) == 0x0210u16
        &&& crc_table_entry(18u8) == 0x3273u16
        &&& crc_table_entry(19u8) == 0x2252u16
        &&& crc_table_entry(20u8) == 0x52B5u16
        &&& crc_table_entry(21u8) == 0x4294u16
        &&& crc_table_entry(22u8) == 0x72F7u16
        &&& crc_table_entry(23u8) == 0x62D6u16
        &&& crc_table_entry(24u8) == 0x9339u16
        &&& crc_table_entry(25u8) == 0x8318u16
        &&& crc_table_entry(26u8) == 0xB37Bu16
        &&& crc_table_entry(27u8) == 0xA35Au16
        &&& crc_table_entry(28u8) == 0xD3BDu16
        &&& crc_table_entry(29u8) == 0xC39Cu16
        &&& crc_table_entry(30u8) == 0xF3FFu16
        &&& crc_table_entry(31u8) == 0xE3DEu16
        &&& crc_table_entry(32u8) == 0x2462u16
        &&& crc_table_entry(33u8) == 0x3443u16
        &&& crc_table_entry(34u8) == 0x0420u16
        &&& crc_table_entry(35u8) == 0x1401u16
        &&& crc_table_entry(36u8) == 0x64E6u16
        &&& crc_table_entry(37u8) == 0x74C7u16
        &&& crc_table_entry(38u8) == 0x44A4u16
        &&& crc_table_entry(39u8) == 0x5485u16
        &&& crc_table_entry(40u8) == 0xA56Au16
        &&& crc_table_entry(41u8) == 0xB54Bu16
        &&& crc_table_entry(42u8) == 0x8528u16
        &&& crc_table_entry(43u8) == 0x9509u16
        &&& crc_table_entry(44u8) == 0xE5EEu16
        &&& crc_table_entry(45u8) == 0xF5CFu16
        &&& crc_table_entry(46u8) == 0xC5ACu16
        &&& crc_table_entry(47u8) == 0xD58Du16
        &&& crc_table_entry(48u8) == 0x3653u16
        &&& crc_table_entry(49u8) == 0x2672u16
        &&& crc_table_entry(50u8) == 0x1611u16
        &&& crc_table_entry(51u8) == 0x0630u16
        &&& crc_table_entry(52u8) == 0x76D7u16
        &&& crc_table_entry(53u8) == 0x66F6u16
        &&& crc_table_entry(54u8) == 0x5695u16
        &&& crc_table_entry(55u8) == 0x46B4u16
        &&& crc_table_entry(56u8) == 0xB75Bu16
        &&& crc_table_entry(57u8) == 0xA77Au16
        &&& crc_table_entry(58u8) == 0x9719u16
        &&& crc_table_entry(59u8) == 0x8738u16
        &&& crc_table_entry(60u8) == 0xF7DFu16
        &&& crc_table_entry(61u8) == 0xE7FEu16
        &&& crc_table_entry(62u8) == 0xD79Du16
        &&& crc_table_entry(63u8) == 0xC7BCu16
        &&& crc_table_entry(64u8) == 0x48C4u16
        &&& crc_table_entry(65u8) == 0x58E5u16
        &&& crc_table_entry(66u8) == 0x6886u16
        &&& crc_table_entry(67u8) == 0x78A7u16
        &&& crc_table_entry(68u8) == 0x0840u16
        &&& crc_table_entry(69u8) == 0x1861u16
        &&& crc_table_entry(70u8) == 0x2802u16
        &&& crc_table_entry(71u8) == 0x3823u16
        &&& crc_table_entry(72u8) == 0xC9CCu16
        &&& crc_table_entry(73u8) == 0xD9EDu16
        &&& crc_table_entry(74u8) == 0xE98Eu16
        &&& crc_table_entry(75u8) == 0xF9AFu16
        &&& crc_table_entry(76u8) == 0x8948u16
        &&& crc_table_entry(77u8) == 0x9969u16
        &&& crc_table_entry(78u8) == 0xA90Au16
        &&& crc_table_entry(79u8) == 0xB92Bu16
        &&& crc_table_entry(80u8) == 0x5AF5u16
        &&& crc_table_entry(81u8) == 0x4AD4u16
        &&& crc_table_entry(82u8) == 0x7AB7u16
        &&& crc_table_entry(83u8) == 0x6A96u16
        &&& crc_table_entry(84u8) == 0x1A71u16
        &&& crc_table_entry(85u8) == 0x0A50u16
        &&& crc_table_entry(86u8) == 0x3A33u16
        &&& crc_table_entry(87u8) == 0x2A12u16
        &&& crc_table_entry(88u8) == 0xDBFDu16
        &&& crc_table_entry(89u8) == 0xCBDCu16
        &&& crc_table_entry(90u8) == 0xFBBFu16
        &&& crc_table_entry(91u8) == 0xEB9Eu16
        &&& crc_table_entry(92u8) == 0x9B79u16
        &&& crc_table_entry(93u8) == 0x8B58u16
        &&& crc_table_entry(94u8) == 0xBB3Bu16
        &&& crc_table_entry(95u8) == 0xAB1Au16
        &&& crc_table_entry(96u8) == 0x6CA6u16
        &&& crc_table_entry(97u8) == 0x7C87u16
        &&& crc_table_entry(98u8) == 0x4CE4u16
        &&& crc_table_entry(99u8) == 0x5CC5u16
        &&& crc_table_entry(100u8) == 0x2C22u16
        &&& crc_table_entry(101u8) == 0x3C03u16
        &&& crc_table_entry(102u8) == 0x0C60u16
        &&& crc_table_entry(103u8) == 0x1C41u16
        &&& crc_table_entry(104u8) == 0xEDAEu16
        &&& crc_table_entry(105u8) == 0xFD8Fu16
        &&& crc_table_entry(106u8) == 0xCDECu16
        &&& crc_table_entry(107u8) == 0xDDCDu16
        &&& crc_table_entry(108u8) == 0xAD2Au16
        &&& crc_table_entry(109u8) == 0xBD0Bu16
        &&& crc_table_entry(110u8) == 0x8D68u16
        &&& crc_table_entry(111u8) == 0x9D49u16
        &&& crc_table_entry(112u8) == 0x7E97u16
        &&& crc_table_entry(113u8) == 0x6EB6u16
        &&& crc_table_entry(114u8) == 0x5ED5u16
        &&& crc_table_entry(115u8) == 0x4EF4u16
        &&& crc_table_entry(116u8) == 0x3E13u16
        &&& crc_table_entry(117u8) == 0x2E32u16
        &&& crc_table_entry(118u8) == 0x1E51u16
        &&& crc_table_entry(119u8) == 0x0E70u16
        &&& crc_table_entry(120u8) == 0xFF9Fu16
        &&& crc_table_entry(121u8) == 0xEFBEu16
        &&& crc_table_entry(122u8) == 0xDFDDu16
        &&& crc_table_entry(123u8) == 0xCFFCu16
        &&& crc_table_entry(124u8) == 0xBF1Bu16
        &&& crc_table_entry(125u8) == 0xAF3Au16
        &&& crc_table_entry(126u8) == 0x9F59u16
        &&& crc_table_entry(127u8) == 0x8F78u16
        &&& crc_table_entry(128u8) == 0x9188u16
        &&& crc_table_entry(129u8) == 0x81A9u16
        &&& crc_table_entry(130u8) == 0xB1CAu16
        &&& crc_table_entry(131u8) == 0xA1EBu16
        &&& crc_table_entry(132u8) == 0xD10Cu16
        &&& crc_table_entry(133u8) == 0xC12Du16
        &&& crc_table_entry(134u8) == 0xF14Eu16
        &&& crc_table_entry(135u8) == 0xE16Fu16
        &&& crc_table_entry(136u8) == 0x1080u16
        &&& crc_table_entry(137u8) == 0x00A1u16
        &&& crc_table_entry(138u8) == 0x30C2u16
        &&& crc_table_entry(139u8) == 0x20E3u16
        &&& crc_table_entry(140u8) == 0x5004u16
        &&& crc_table_entry(141u8) == 0x4025u16
        &&& crc_table_entry(142u8) == 0x7046u16
        &&& crc_table_entry(143u8) == 0x6067u16
        &&& crc_table_entry(144u8) == 0x83B9u16
        &&& crc_table_entry(145u8) == 0x9398u16
        &&& crc_table_entry(146u8) == 0xA3FBu16
        &&& crc_table_entry(147u8) == 0xB3DAu16
        &&& crc_table_entry(148u8) == 0xC33Du16
        &&& crc_table_entry(149u8) == 0xD31Cu16
        &&& crc_table_entry(150u8) == 0xE37Fu16
        &&& crc_table_entry(151u8) == 0xF35Eu16
        &&& crc_table_entry(152u8) == 0x02B1u16
        &&& crc_table_entry(153u8) == 0x1290u16
        &&& crc_table_entry(154u8) == 0x22F3u16
        &&& crc_table_entry(155u8) == 0x32D2u16
        &&& crc_table_entry(156u8) == 0x4235u16
        &&& crc_table_entry(157u8) == 0x5214u16
        &&& crc_table_entry(158u8) == 0x6277u16
        &&& crc_table_entry(159u8) == 0x7256u16
        &&& crc_table_entry(160u8) == 0xB5EAu16
        &&& crc_table_entry(161u8) == 0xA5CBu16
        &&& crc_table_entry(162u8) == 0x95A8u16
        &&& crc_table_entry(163u8) == 0x8589u16
        &&& crc_table_entry(164u8) == 0xF56Eu16
        &&& crc_table_entry(165u8) == 0xE54Fu16
        &&& crc_table_entry(166u8) == 0xD52Cu16
        &&& crc_table_entry(167u8) == 0xC50Du16
        &&& crc_table_entry(168u8) == 0x34E2u16
        &&& crc_table_entry(169u8) == 0x24C3u16
        &&& crc_table_entry(170u8) == 0x14A0u16
        &&& crc_table_entry(171u8) == 0x0481u16
        &&& crc_table_entry(172u8) == 0x7466u16
        &&& crc_table_entry(173u8) == 0x6447u16
        &&& crc_table_entry(174u8) == 0x5424u16
        &&& crc_table_entry(175u8) == 0x4405u16
        &&& crc_table_entry(176u8) == 0xA7DBu16
        &&& crc_table_entry(177u8) == 0xB7FAu16
        &&& crc_table_entry(178u8) == 0x8799u16
        &&& crc_table_entry(179u8) == 0x97B8u16
        &&& crc_table_entry(180u8) == 0xE75Fu16
        &&& crc_table_entry(181u8) == 0xF77Eu16
        &&& crc_table_entry(182u8) == 0xC71Du16
        &&& crc_table_entry(183u8) == 0xD73Cu16
        &&& crc_table_entry(184u8) == 0x26D3u16
        &&& crc_table_entry(185u8) == 0x36F2u16
        &&& crc_table_entry(186u8) == 0x0691u16
        &&& crc_table_entry(187u8) == 0x16B0u16
        &&& crc_table_entry(188u8) == 0x6657u16
        &&& crc_table_entry(189u8) == 0x7676u16
        &&& crc_table_entry(190u8) == 0x4615u16
        &&& crc_table_entry(191u8) == 0x5634u16
        &&& crc_table_entry(192u8) == 0xD94Cu16
        &&& crc_table_entry(193u8) == 0xC96Du16
        &&& crc_table_entry(194u8) == 0xF90Eu16
        &&& crc_table_entry(195u8) == 0xE92Fu16
        &&& crc_table_entry(196u8) == 0x99C8u16
        &&& crc_table_entry(197u8) == 0x89E9u16
        &&& crc_table_entry(198u8) == 0xB98Au16
        &&& crc_table_entry(199u8) == 0xA9ABu16
        &&& crc_table_entry(200u8) == 0x5844u16
        &&& crc_table_entry(201u8) == 0x4865u16
        &&& crc_table_entry(202u8) == 0x7806u16
        &&& crc_table_entry(203u8) == 0x6827u16
        &&& crc_table_entry(204u8) == 0x18C0u16
        &&& crc_table_entry(205u8) == 0x08E1u16
        &&& crc_table_entry(206u8) == 0x3882u16
        &&& crc_table_entry(207u8) == 0x28A3u16
        &&& crc_table_entry(208u8) == 0xCB7Du16
        &&& crc_table_entry(209u8) == 0xDB5Cu16
        &&& crc_table_entry(210u8) == 0xEB3Fu16
        &&& crc_table_entry(211u8) == 0xFB1Eu16
        &&& crc_table_entry(212u8) == 0x8BF9u16
        &&& crc_table_entry(213u8) == 0x9BD8u16
        &&& crc_table_entry(214u8) == 0xABBBu16
        &&& crc_table_entry(215u8) == 0xBB9Au16
        &&& crc_table_entry(216u8) == 0x4A75u16
        &&& crc_table_entry(217u8) == 0x5A54u16
        &&& crc_table_entry(218u8) == 0x6A37u16
        &&& crc_table_entry(219u8) == 0x7A16u16
        &&& crc_table_entry(220u8) == 0x0AF1u16
        &&& crc_table_entry(221u8) == 0x1AD0u16
        &&& crc_table_entry(222u8) == 0x2AB3u16
        &&& crc_table_entry(223u8) == 0x3A92u16
        &&& crc_table_entry(224u8) == 0xFD2Eu16
        &&& crc_table_entry(225u8) == 0xED0Fu16
        &&& crc_table_entry(226u8) == 0xDD6Cu16
        &&& crc_table_entry(227u8) == 0xCD4Du16
        &&& crc_table_entry(228u8) == 0xBDAAu16
        &&& crc_table_entry(229u8) == 0xAD8Bu16
        &&& crc_table_entry(230u8) == 0x9DE8u16
        &&& crc_table_entry(231u8) == 0x8DC9u16
        &&& crc_table_entry(232u8) == 0x7C26u16
        &&& crc_table_entry(233u8) == 0x6C07u16
        &&& crc_table_entry(234u8) == 0x5C64u16
        &&& crc_table_entry(235u8) == 0x4C45u16
        &&& crc_table_entry(236u8) == 0x3CA2u16
        &&& crc_table_entry(237u8) == 0x2C83u16
        &&& crc_table_entry(238u8) == 0x1CE0u16
        &&& crc_table_entry(239u8) == 0x0CC1u16
        &&& crc_table_entry(240u8) == 0xEF1Fu16
        &&& crc_table_entry(241u8) == 0xFF3Eu16
        &&& crc_table_entry(242u8) == 0xCF5Du16
        &&& crc_table_entry(243u8) == 0xDF7Cu16
        &&& crc_table_entry(244u8) == 0xAF9Bu16
        &&& crc_table_entry(245u8) == 0xBFBAu16
        &&& crc_table_entry(246u8) == 0x8FD9u16
        &&& crc_table_entry(247u8) == 0x9FF8u16
        &&& crc_table_entry(248u8) == 0x6E17u16
        &&& crc_table_entry(249u8) == 0x7E36u16
        &&& crc_table_entry(250u8) == 0x4E55u16
        &&& crc_table_entry(251u8) == 0x5E74u16
        &&& crc_table_entry(252u8) == 0x2E93u16
        &&& crc_table_entry(253u8) == 0x3EB2u16
        &&& crc_table_entry(254u8) == 0x0ED1u16
        &&& crc_table_entry(255u8) == 0x1EF0u16
    }) by (bit_vector);
}

#[verifier::rlimit(50)]
proof fn lemma_crc16_table_0(i: u8)
    requires
        0 <= i < 64,
    ensures
        CRC16_TABLE@[i as int] == crc_table_entry(i),
{
    lemma_crc_table_values();
    match i {
        0 => {},
        1 => {},
        2 => {},
        3 => {},
        4 => {},
        5 => {},
        6 => {},
        7 => {},
        8 => {},
        9 => {},
        10 => {},
        11 => {},
        12 => {},
        13 => {},
        14 => {},
        15 => {},
        16 => {},
        17 => {},
        18 => {},
        19 => {},
        20 => {},
        21 => {},
        22 => {},
        23 => {},
        24 => {},
        25 => {},
        26 => {},
        27 => {},
        28 => {},
        29 => {},
        30 => {},
        31 => {},
        32 => {},
        33 => {},
        34 => {},
        35 => {},
        36 => {},
        37 => {},
        38 => {},
        39 => {},
        40 => {},
        41 => {},
        42 => {},
        43 => {},
        44 => {},
        45 => {},
        46 => {},
        47 => {},
        48 => {},
        49 => {},
        50 => {},
        51 => {},
        52 => {},
        53 => {},
        54 => {},
        55 => {},
        56 => {},
        57 => {},
        58 => {},
        59 => {},
        60 => {},
        61 => {},
        62 => {},
        63 => {},
        _ => {},
    }
}

#[verifier::rlimit(50)]
proof fn lemma_crc16_table_1(i: u8)
    requires
        64 <= i < 128,
    ensures
        CRC16_TABLE@[i as int] == crc_table_entry(i),
{
    lemma_crc_table_values();
    match i {
        64 => {},
        65 => {},
        66 => {},
        67 => {},
        68 => {},
        69 => {},
        70 => {},
        71 => {},
        72 => {},
        73 => {},
        74 => {},
        75 => {},
        76 => {},
        77 => {},
        78 => {},
        79 => {},
        80 => {},
        81 => {},
        82 => {},
        83 => {},
        84 => {},
        85 => {},
        86 => {},
        87 => {},
        88 => {},
        89 => {},
        90 => {},
        91 => {},
        92 => {},
        93 => {},
        94 => {},
        95 => {},
        96 => {},
        97 => {},
        98 => {},
        99 => {},
        100 => {},
        101 => {},
        102 => {},
        103 => {},
        104 => {},
        105 => {},
        106 => {},
        107 => {},
        108 => {},
        109 => {},
        110 => {},
        111 => {},
        112 => {},
        113 => {},
        114 => {},
        115 => {},
        116 => {},
        117 => {},
        118 => {},
        119 => {},
        120 => {},
        121 => {},
        122 => {},
        123 => {},
        124 => {},
        125 => {},
        126 => {},
        127 => {},
        _ => {},
    }
}

#[verifier::rlimit(50)]
proof fn lemma_crc16_table_2(i: u8)
    requires
        128 <= i < 192,
    ensures
        CRC16_TABLE@[i as int] == crc_table_entry(i),
{
    lemma_crc_table_values();
    match i {
        128 => {},
        129 => {},
        130 => {},
        131 => {},
        132 => {},
        133 => {},
        134 => {},
        135 => {},
        136 => {},
        137 => {},
        138 => {},
        139 => {},
        140 => {},
        141 => {},
        142 => {},
        143 => {},
        144 => {},
        145 => {},
        146 => {},
        147 => {},
        148 => {},
        149 => {},
        150 => {},
        151 => {},
        152 => {},
        153 => {},
        154 => {},
        155 => {},
        156 => {},
        157 => {},
        158 => {},
        159 => {},
        160 => {},
        161 => {},
        162 => {},
        163 => {},
        164 => {},
        165 => {},
        166 => {},
        167 => {},
        168 => {},
        169 => {},
        170 => {},
        171 => {},
        172 => {},
        173 => {},
        174 => {},
        175 => {},
        176 => {},
        177 => {},
        178 => {},
        179 => {},
        180 => {},
        181 => {},
        182 => {},
        183 => {},
        184 => {},
        185 => {},
        186 => {},
        187 => {},
        188 => {},
        189 => {},
        190 => {},
        191 => {},
        _ => {},
    }
}

#[verifier::rlimit(50)]
proof fn lemma_crc16_table_3(i: u8)
    requires
        192 <= i < 256,
    ensures
        CRC16_TABLE@[i as int] == crc_table_entry(i),
{
    lemma_crc_table_values();
    match i {
        192 => {},
        193 => {},
        194 => {},
        195 => {},
        196 => {},
        197 => {},
        198 => {},
        199 => {},
        200 => {},
        201 => {},
        202 => {},
        203 => {},
        204 => {},
        205 => {},
        206 => {},
        207 => {},
        208 => {},
        209 => {},
        210 => {},
        211 => {},
        212 => {},
        213 => {},
        214 => {},
        215 => {},
        216 => {},
        217 => {},
        218 => {},
        219 => {},
        220 => {},
        221 => {},
        222 => {},
        223 => {},
        224 => {},
        225 => {},
        226 => {},
        227 => {},
        228 => {},
        229 => {},
        230 => {},
        231 => {},
        232 => {},
        233 => {},
        234 => {},
        235 => {},
        236 => {},
        237 => {},
        238 => {},
        239 => {},
        240 => {},
        241 => {},
        242 => {},
        243 => {},
        244 => {},
        245 => {},
        246 => {},
        247 => {},
        248 => {},
        249 => {},
        250 => {},
        251 => {},
        252 => {},
        253 => {},
        254 => {},
        255 => {},
        _ => {},
    }
}

/// Every entry of the lookup table is the value that its definition gives.
proof fn lemma_crc16_table(i: u8)
    ensures
        CRC16_TABLE@[i as int] == crc_table_entry(i),
{
    if i < 64 {
        lemma_crc16_table_0(i);
    } else if i < 128 {
        lemma_crc16_table_1(i);
    } else if i < 192 {
        lemma_crc16_table_2(i);
    } else {
        lemma_crc16_table_3(i);
    }
}

/// Table-driven CRC-16/CCITT.
pub fn crc16_ccitt_table(data: &[u8]) -> (crc: u16)
    ensures
        crc == spec_crc16_ccitt_table(data@),
        crc == spec_crc16_ccitt(data@),
{
    let mut crc: u16 = 0xFFFF;
    let mut i: usize = 0;
    while i < data.len()
        invariant
            i <= data.len(),
            crc == spec_crc16_ccitt_table(data@.take(i as int)),
        decreases data.len() - i,
    {
        let byte = data[i];
        let index = ((crc >> 8u16) ^ (byte as u16)) as u8;
        proof {
            lemma_crc16_table(index);
            assert(data@.take(i + 1).drop_last() =~= data@.take(i as int));
        }
        crc = (crc << 8u16) ^ CRC16_TABLE[index as usize];
        i += 1;
    }
    assert(data@.take(data.len() as int) =~= data@);
    proof {
        lemma_crc16_table_matches_bitwise(data@);
    }
    crc
}

/// One bitwise step loses nothing: different registers stay different
/// (the polynomial's lowest bit records whether the top bit was set).
proof fn lemma_crc_shift_injective(a: u16, b: u16)
    ensures
        crc_shift(a) == crc_shift(b) ==> a == b,
{
    assert(crc_shift(a) == crc_shift(b) ==> a == b) by (bit_vector);
}

/// Any number of bitwise steps loses nothing.
proof fn lemma_crc_shift_n_injective(a: u16, b: u16, n: nat)
    ensures
        a != b ==> crc_shift_n(a, n) != crc_shift_n(b, n),
    decreases n,
{
    if n > 0 {
        lemma_crc_shift_n_injective(a, b, (n - 1) as nat);
        lemma_crc_shift_injective(crc_shift_n(a, (n - 1) as nat), crc_shift_n(b, (n - 1) as nat));
    }
}

/// The byte update loses nothing: with the same byte, different registers
/// give different registers, and from the same register, different bytes
/// give different registers.
proof fn lemma_crc_update_injective(r1: u16, r2: u16, b1: u8, b2: u8)
    ensures
        (r1 != r2 || b1 != b2) && (r1 == r2 || b1 == b2) ==> crc_update_byte(r1, b1)
            != crc_update_byte(r2, b2),
{
    let x1 = (r1 ^ ((b1 as u16) << 8u16)) as u16;
    let x2 = (r2 ^ ((b2 as u16) << 8u16)) as u16;
    assert((r1 != r2 || b1 != b2) && (r1 == r2 || b1 == b2) ==> x1 != x2) by (bit_vector)
        requires
            x1 == (r1 ^ ((b1 as u16) << 8u16)) as u16,
            x2 == (r2 ^ ((b2 as u16) << 8u16)) as u16,
    ;
    lemma_crc_shift_n_injective(x1, x2, 8);
    lemma_crc_shift_n_8(x1);
    lemma_crc_shift_n_8(x2);
}

/// The CRC catches any single changed byte: two inputs of the same length
/// that differ at exactly one position have different CRCs.
pub proof fn lemma_crc_detects_single_byte(d1: Seq<u8>, d2: Seq<u8>, k: int)
    requires
        d1.len() == d2.len(),
        0 <= k < d1.len(),
        d1[k] != d2[k],
        forall|j: int| 0 <= j < d1.len() && j != k ==> d1[j] == d2[j],
    ensures
        spec_crc16_ccitt(d1) != spec_crc16_ccitt(d2),
    decreases d1.len(),
{
    let n = d1.len() as int;
    if k == n - 1 {
        assert(d1.drop_last() =~= d2.drop_last());
        lemma_crc_update_injective(
            spec_crc16_ccitt(d1.drop_last()),
            spec_crc16_ccitt(d2.drop_last()),
            d1.last(),
            d2.last(),
        );
    } else {
        lemma_crc_detects_single_byte(d1.drop_last(), d2.drop_last(), k);
        lemma_crc_update_injective(
            spec_crc16_ccitt(d1.drop_last()),
            spec_crc16_ccitt(d2.drop_last()),
            d1.last(),
            d2.last(),
        );
    }
}

/// A step on a register whose top bit is clear only shifts it.
proof fn lemma_crc_shift_low(y: u16)
    requires
        y < 0x8000,
    ensures
        crc_shift(y) == y * 2,
{
    assert(crc_shift(y) == y * 2) by (bit_vector)
        requires
            y < 0x8000,
    ;
}

/// The eight steps on a register holding only a low byte shift that byte
/// into the high byte.
proof fn lemma_crc_shift8_low_byte(x: u16)
    requires
        x < 256,
    ensures
        crc_shift8(x) == x * 256,
{
    lemma_crc_shift_low(x);
    lemma_crc_shift_low((x * 2) as u16);
    lemma_crc_shift_low((x * 4) as u16);
    lemma_crc_shift_low((x * 8) as u16);
    lemma_crc_shift_low((x * 16) as u16);
    lemma_crc_shift_low((x * 32) as u16);
    lemma_crc_shift_low((x * 64) as u16);
    lemma_crc_shift_low((x * 128) as u16);
}

/// A message followed by its own CRC, most significant byte first, has CRC
/// zero: the residue by which a receiver may check a whole block at once.
pub proof fn lemma_crc_residue_zero(data: Seq<u8>)
    ensures
        ({
            let r = spec_crc16_ccitt(data);
            spec_crc16_ccitt(data + seq![(r >> 8u16) as u8, (r & 0xFFu16) as u8]) == 0
        }),
{
    let r = spec_crc16_ccitt(data);
    let hi = (r >> 8u16) as u8;
    let lo = (r & 0xFFu16) as u8;
    let m = data + seq![hi, lo];
    assert(m.drop_last() =~= data.push(hi));
    assert(data.push(hi).drop_last() =~= data);
    let l = lo as u16;
    assert((r ^ ((hi as u16) << 8u16)) as u16 == l) by (bit_vector)
        requires
            hi == (r >> 8u16) as u8,
            lo == (r & 0xFFu16) as u8,
            l == lo as u16,
    ;
    lemma_crc_shift8_low_byte(l);
    let r1 = crc_update_byte(r, hi);
    assert(r1 == l * 256);
    assert(((l * 256) as u16 ^ ((lo as u16) << 8u16)) as u16 == 0u16) by (bit_vector)
        requires
            l == lo as u16,
            l < 256,
    ;
    lemma_crc_shift8_low_byte(0);
    assert(crc_update_byte(r1, lo) == 0u16);
    assert(spec_crc16_ccitt(data.push(hi)) == r1);
    assert(spec_crc16_ccitt(m) == crc_update_byte(spec_crc16_ccitt(m.drop_last()), m.last()));
}

} // verus!
