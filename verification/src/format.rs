use vstd::prelude::*;

use crate::error::KtxError;
use crate::header::Header;

verus! {

/// The Vulkan format code that the correspondence table assigns to the
/// `(internal_format, format, ty)` triple, or `None` when the triple has no
/// entry.
///
/// The table is a fixed, exhaustive list of numeric triples, each mapped to
/// one fixed code: no ranges, no wildcards, no computed fallback.
pub open spec fn vulkan_format_code(internal_format: u32, format: u32, ty: u32) -> Option<u32> {
    if internal_format == 37820 && format == 0 && ty == 0 {
        Some(181u32)
    } else if internal_format == 36286 && format == 0 && ty == 0 {
        Some(142u32)
    } else if internal_format == 35842 && format == 0 && ty == 0 {
        Some(1000054001u32)
    } else if internal_format == 33336 && format == 33320 && ty == 5121 {
        Some(20u32)
    } else if internal_format == 35898 && format == 6407 && ty == 35899 {
        Some(122u32)
    } else if internal_format == 36209 && format == 36248 && ty == 5125 {
        Some(104u32)
    } else if internal_format == 36226 && format == 36249 && ty == 5124 {
        Some(108u32)
    } else if internal_format == 33778 && format == 0 && ty == 0 {
        Some(135u32)
    } else if internal_format == 36759 && format == 6408 && ty == 5120 {
        Some(38u32)
    } else if internal_format == 35905 && format == 6407 && ty == 5121 {
        Some(29u32)
    } else if internal_format == 36168 && format == 6401 && ty == 5121 {
        Some(127u32)
    } else if internal_format == 36238 && format == 36251 && ty == 5120 {
        Some(49u32)
    } else if internal_format == 34837 && format == 6407 && ty == 5126 {
        Some(106u32)
    } else if internal_format == 33777 && format == 0 && ty == 0 {
        Some(133u32)
    } else if internal_format == 35918 && format == 0 && ty == 0 {
        Some(136u32)
    } else if internal_format == 32854 && format == 32993 && ty == 32819 {
        Some(3u32)
    } else if internal_format == 37818 && format == 0 && ty == 0 {
        Some(177u32)
    } else if internal_format == 33326 && format == 6403 && ty == 5126 {
        Some(100u32)
    } else if internal_format == 36756 && format == 6403 && ty == 5120 {
        Some(10u32)
    } else if internal_format == 33325 && format == 6403 && ty == 5131 {
        Some(76u32)
    } else if internal_format == 36208 && format == 36249 && ty == 5125 {
        Some(107u32)
    } else if internal_format == 37842 && format == 0 && ty == 0 {
        Some(162u32)
    } else if internal_format == 36194 && format == 6407 && ty == 33635 {
        Some(4u32)
    } else if internal_format == 36758 && format == 6407 && ty == 5120 {
        Some(24u32)
    } else if internal_format == 32855 && format == 32993 && ty == 33638 {
        Some(8u32)
    } else if internal_format == 33339 && format == 33320 && ty == 5124 {
        Some(102u32)
    } else if internal_format == 34836 && format == 6408 && ty == 5126 {
        Some(109u32)
    } else if internal_format == 37853 && format == 0 && ty == 0 {
        Some(184u32)
    } else if internal_format == 32857 && format == 6408 && ty == 33640 {
        Some(64u32)
    } else if internal_format == 37872 && format == 0 && ty == 0 {
        Some(1000054006u32)
    } else if internal_format == 36797 && format == 6403 && ty == 5121 {
        Some(15u32)
    } else if internal_format == 33329 && format == 36244 && ty == 5120 {
        Some(14u32)
    } else if internal_format == 35905 && format == 32992 && ty == 5121 {
        Some(36u32)
    } else if internal_format == 36227 && format == 36248 && ty == 5124 {
        Some(105u32)
    } else if internal_format == 37847 && format == 0 && ty == 0 {
        Some(172u32)
    } else if internal_format == 33322 && format == 6403 && ty == 5123 {
        Some(70u32)
    } else if internal_format == 33330 && format == 36244 && ty == 5121 {
        Some(13u32)
    } else if internal_format == 32856 && format == 32993 && ty == 5121 {
        Some(44u32)
    } else if internal_format == 37809 && format == 0 && ty == 0 {
        Some(159u32)
    } else if internal_format == 37488 && format == 0 && ty == 0 {
        Some(153u32)
    } else if internal_format == 36238 && format == 36249 && ty == 5120 {
        Some(42u32)
    } else if internal_format == 35415 && format == 0 && ty == 0 {
        Some(1000054005u32)
    } else if internal_format == 37494 && format == 0 && ty == 0 {
        Some(149u32)
    } else if internal_format == 33324 && format == 33319 && ty == 5123 {
        Some(77u32)
    } else if internal_format == 36232 && format == 36249 && ty == 5122 {
        Some(96u32)
    } else if internal_format == 35919 && format == 0 && ty == 0 {
        Some(138u32)
    } else if internal_format == 36233 && format == 36248 && ty == 5122 {
        Some(89u32)
    } else if internal_format == 32859 && format == 6408 && ty == 5123 {
        Some(91u32)
    } else if internal_format == 37489 && format == 0 && ty == 0 {
        Some(154u32)
    } else if internal_format == 36975 && format == 36249 && ty == 33640 {
        Some(68u32)
    } else if internal_format == 37808 && format == 0 && ty == 0 {
        Some(157u32)
    } else if internal_format == 37840 && format == 0 && ty == 0 {
        Some(158u32)
    } else if internal_format == 32849 && format == 32992 && ty == 5121 {
        Some(30u32)
    } else if internal_format == 36013 && format == 34041 && ty == 36269 {
        Some(130u32)
    } else if internal_format == 35843 && format == 0 && ty == 0 {
        Some(1000054000u32)
    } else if internal_format == 36494 && format == 0 && ty == 0 {
        Some(144u32)
    } else if internal_format == 36285 && format == 0 && ty == 0 {
        Some(141u32)
    } else if internal_format == 36761 && format == 33319 && ty == 5122 {
        Some(78u32)
    } else if internal_format == 33332 && format == 36244 && ty == 5123 {
        Some(74u32)
    } else if internal_format == 37814 && format == 0 && ty == 0 {
        Some(169u32)
    } else if internal_format == 37176 && format == 0 && ty == 0 {
        Some(1000054003u32)
    } else if internal_format == 37873 && format == 0 && ty == 0 {
        Some(1000054007u32)
    } else if internal_format == 36760 && format == 6403 && ty == 5122 {
        Some(71u32)
    } else if internal_format == 36759 && format == 32993 && ty == 5120 {
        Some(45u32)
    } else if internal_format == 33333 && format == 36244 && ty == 5124 {
        Some(99u32)
    } else if internal_format == 37812 && format == 0 && ty == 0 {
        Some(165u32)
    } else if internal_format == 36220 && format == 36251 && ty == 5121 {
        Some(48u32)
    } else if internal_format == 33779 && format == 0 && ty == 0 {
        Some(137u32)
    } else if internal_format == 37493 && format == 0 && ty == 0 {
        Some(148u32)
    } else if internal_format == 37811 && format == 0 && ty == 0 {
        Some(163u32)
    } else if internal_format == 37846 && format == 0 && ty == 0 {
        Some(170u32)
    } else if internal_format == 37851 && format == 0 && ty == 0 {
        Some(180u32)
    } else if internal_format == 37816 && format == 0 && ty == 0 {
        Some(173u32)
    } else if internal_format == 33334 && format == 36244 && ty == 5125 {
        Some(98u32)
    } else if internal_format == 36762 && format == 6407 && ty == 5122 {
        Some(85u32)
    } else if internal_format == 36221 && format == 36250 && ty == 5121 {
        Some(34u32)
    } else if internal_format == 37843 && format == 0 && ty == 0 {
        Some(164u32)
    } else if internal_format == 36012 && format == 6402 && ty == 5126 {
        Some(126u32)
    } else if internal_format == 37497 && format == 0 && ty == 0 {
        Some(152u32)
    } else if internal_format == 33337 && format == 33320 && ty == 5122 {
        Some(82u32)
    } else if internal_format == 32856 && format == 6408 && ty == 5121 {
        Some(37u32)
    } else if internal_format == 33335 && format == 33320 && ty == 5120 {
        Some(21u32)
    } else if internal_format == 36798 && format == 33319 && ty == 5121 {
        Some(22u32)
    } else if internal_format == 32849 && format == 6407 && ty == 5121 {
        Some(23u32)
    } else if internal_format == 36975 && format == 36251 && ty == 33640 {
        Some(62u32)
    } else if internal_format == 36495 && format == 0 && ty == 0 {
        Some(143u32)
    } else if internal_format == 37849 && format == 0 && ty == 0 {
        Some(176u32)
    } else if internal_format == 37852 && format == 0 && ty == 0 {
        Some(182u32)
    } else if internal_format == 35414 && format == 0 && ty == 0 {
        Some(1000054004u32)
    } else if internal_format == 33323 && format == 33319 && ty == 5121 {
        Some(16u32)
    } else if internal_format == 36239 && format == 36248 && ty == 5120 {
        Some(28u32)
    } else if internal_format == 35907 && format == 6408 && ty == 5121 {
        Some(43u32)
    } else if internal_format == 35916 && format == 0 && ty == 0 {
        Some(132u32)
    } else if internal_format == 37819 && format == 0 && ty == 0 {
        Some(179u32)
    } else if internal_format == 32854 && format == 6408 && ty == 32819 {
        Some(2u32)
    } else if internal_format == 37821 && format == 0 && ty == 0 {
        Some(183u32)
    } else if internal_format == 32852 && format == 6407 && ty == 5123 {
        Some(84u32)
    } else if internal_format == 36214 && format == 36249 && ty == 5123 {
        Some(95u32)
    } else if internal_format == 33328 && format == 33319 && ty == 5126 {
        Some(103u32)
    } else if internal_format == 37491 && format == 0 && ty == 0 {
        Some(156u32)
    } else if internal_format == 36215 && format == 36248 && ty == 5123 {
        Some(88u32)
    } else if internal_format == 34843 && format == 6407 && ty == 5131 {
        Some(90u32)
    } else if internal_format == 33340 && format == 33320 && ty == 5125 {
        Some(101u32)
    } else if internal_format == 37175 && format == 0 && ty == 0 {
        Some(1000054002u32)
    } else if internal_format == 37844 && format == 0 && ty == 0 {
        Some(166u32)
    } else if internal_format == 36758 && format == 32992 && ty == 5120 {
        Some(31u32)
    } else if internal_format == 37845 && format == 0 && ty == 0 {
        Some(168u32)
    } else if internal_format == 33321 && format == 6403 && ty == 5121 {
        Some(9u32)
    } else if internal_format == 34842 && format == 6408 && ty == 5131 {
        Some(97u32)
    } else if internal_format == 33189 && format == 6402 && ty == 5123 {
        Some(124u32)
    } else if internal_format == 36221 && format == 36248 && ty == 5121 {
        Some(27u32)
    } else if internal_format == 35917 && format == 0 && ty == 0 {
        Some(134u32)
    } else if internal_format == 37810 && format == 0 && ty == 0 {
        Some(161u32)
    } else if internal_format == 33338 && format == 33320 && ty == 5123 {
        Some(81u32)
    } else if internal_format == 36492 && format == 0 && ty == 0 {
        Some(145u32)
    } else if internal_format == 37492 && format == 0 && ty == 0 {
        Some(147u32)
    } else if internal_format == 37848 && format == 0 && ty == 0 {
        Some(174u32)
    } else if internal_format == 35907 && format == 32993 && ty == 5121 {
        Some(50u32)
    } else if internal_format == 33327 && format == 33319 && ty == 5131 {
        Some(83u32)
    } else if internal_format == 32855 && format == 32993 && ty == 32820 {
        Some(7u32)
    } else if internal_format == 36493 && format == 0 && ty == 0 {
        Some(146u32)
    } else if internal_format == 36239 && format == 36250 && ty == 5120 {
        Some(35u32)
    } else if internal_format == 37495 && format == 0 && ty == 0 {
        Some(150u32)
    } else if internal_format == 37841 && format == 0 && ty == 0 {
        Some(160u32)
    } else if internal_format == 36763 && format == 6408 && ty == 5122 {
        Some(92u32)
    } else if internal_format == 33331 && format == 36244 && ty == 5122 {
        Some(75u32)
    } else if internal_format == 35901 && format == 6407 && ty == 35902 {
        Some(123u32)
    } else if internal_format == 35056 && format == 34041 && ty == 34042 {
        Some(129u32)
    } else if internal_format == 37496 && format == 0 && ty == 0 {
        Some(151u32)
    } else if internal_format == 36284 && format == 0 && ty == 0 {
        Some(140u32)
    } else if internal_format == 37817 && format == 0 && ty == 0 {
        Some(175u32)
    } else if internal_format == 36220 && format == 36249 && ty == 5121 {
        Some(41u32)
    } else if internal_format == 33190 && format == 6402 && ty == 5125 {
        Some(125u32)
    } else if internal_format == 32857 && format == 32993 && ty == 33640 {
        Some(58u32)
    } else if internal_format == 36194 && format == 6407 && ty == 33636 {
        Some(5u32)
    } else if internal_format == 37850 && format == 0 && ty == 0 {
        Some(178u32)
    } else if internal_format == 36757 && format == 33319 && ty == 5120 {
        Some(17u32)
    } else if internal_format == 33776 && format == 0 && ty == 0 {
        Some(131u32)
    } else if internal_format == 36283 && format == 0 && ty == 0 {
        Some(139u32)
    } else if internal_format == 37813 && format == 0 && ty == 0 {
        Some(167u32)
    } else if internal_format == 37490 && format == 0 && ty == 0 {
        Some(155u32)
    } else if internal_format == 32855 && format == 6408 && ty == 32820 {
        Some(6u32)
    } else if internal_format == 37815 && format == 0 && ty == 0 {
        Some(171u32)
    } else {
        None
    }
}

impl Header {
    /// Translates this header's `(internal_format, format, ty)` triple into
    /// a Vulkan format code by looking up the exact triple in the
    /// correspondence table.
    ///
    /// Returns `Ok` with the table's code exactly when
    /// [`vulkan_format_code`] has an entry for the triple, and
    /// `Err(KtxError::UnknownFormat)` exactly when it has none.
    pub fn vulkan_type(&self) -> (r: Result<u32, KtxError>)
        ensures
            (match vulkan_format_code(self.internal_format, self.format, self.ty) {
                Some(code) => r == Ok::<u32, KtxError>(code),
                None => r == Err::<u32, KtxError>(KtxError::UnknownFormat),
            }),
    {
        let internal_format = self.internal_format;
        let format = self.format;
        let ty = self.ty;
        let code: Option<u32> =
        if internal_format == 37820 && format == 0 && ty == 0 {
            Some(181)
        } else if internal_format == 36286 && format == 0 && ty == 0 {
            Some(142)
        } else if internal_format == 35842 && format == 0 && ty == 0 {
            Some(1000054001)
        } else if internal_format == 33336 && format == 33320 && ty == 5121 {
            Some(20)
        } else if internal_format == 35898 && format == 6407 && ty == 35899 {
            Some(122)
        } else if internal_format == 36209 && format == 36248 && ty == 5125 {
            Some(104)
        } else if internal_format == 36226 && format == 36249 && ty == 5124 {
            Some(108)
        } else if internal_format == 33778 && format == 0 && ty == 0 {
            Some(135)
        } else if internal_format == 36759 && format == 6408 && ty == 5120 {
            Some(38)
        } else if internal_format == 35905 && format == 6407 && ty == 5121 {
            Some(29)
        } else if internal_format == 36168 && format == 6401 && ty == 5121 {
            Some(127)
        } else if internal_format == 36238 && format == 36251 && ty == 5120 {
            Some(49)
        } else if internal_format == 34837 && format == 6407 && ty == 5126 {
            Some(106)
        } else if internal_format == 33777 && format == 0 && ty == 0 {
            Some(133)
        } else if internal_format == 35918 && format == 0 && ty == 0 {
            Some(136)
        } else if internal_format == 32854 && format == 32993 && ty == 32819 {
            Some(3)
        } else if internal_format == 37818 && format == 0 && ty == 0 {
            Some(177)
        } else if internal_format == 33326 && format == 6403 && ty == 5126 {
            Some(100)
        } else if internal_format == 36756 && format == 6403 && ty == 5120 {
            Some(10)
        } else if internal_format == 33325 && format == 6403 && ty == 5131 {
            Some(76)
        } else if internal_format == 36208 && format == 36249 && ty == 5125 {
            Some(107)
        } else if internal_format == 37842 && format == 0 && ty == 0 {
            Some(162)
        } else if internal_format == 36194 && format == 6407 && ty == 33635 {
            Some(4)
        } else if internal_format == 36758 && format == 6407 && ty == 5120 {
            Some(24)
        } else if internal_format == 32855 && format == 32993 && ty == 33638 {
            Some(8)
        } else if internal_format == 33339 && format == 33320 && ty == 5124 {
            Some(102)
        } else if internal_format == 34836 && format == 6408 && ty == 5126 {
            Some(109)
        } else if internal_format == 37853 && format == 0 && ty == 0 {
            Some(184)
        } else if internal_format == 32857 && format == 6408 && ty == 33640 {
            Some(64)
        } else if internal_format == 37872 && format == 0 && ty == 0 {
            Some(1000054006)
        } else if internal_format == 36797 && format == 6403 && ty == 5121 {
            Some(15)
        } else if internal_format == 33329 && format == 36244 && ty == 5120 {
            Some(14)
        } else if internal_format == 35905 && format == 32992 && ty == 5121 {
            Some(36)
        } else if internal_format == 36227 && format == 36248 && ty == 5124 {
            Some(105)
        } else if internal_format == 37847 && format == 0 && ty == 0 {
            Some(172)
        } else if internal_format == 33322 && format == 6403 && ty == 5123 {
            Some(70)
        } else if internal_format == 33330 && format == 36244 && ty == 5121 {
            Some(13)
        } else if internal_format == 32856 && format == 32993 && ty == 5121 {
            Some(44)
        } else if internal_format == 37809 && format == 0 && ty == 0 {
            Some(159)
        } else if internal_format == 37488 && format == 0 && ty == 0 {
            Some(153)
        } else if internal_format == 36238 && format == 36249 && ty == 5120 {
            Some(42)
        } else if internal_format == 35415 && format == 0 && ty == 0 {
            Some(1000054005)
        } else if internal_format == 37494 && format == 0 && ty == 0 {
            Some(149)
        } else if internal_format == 33324 && format == 33319 && ty == 5123 {
            Some(77)
        } else if internal_format == 36232 && format == 36249 && ty == 5122 {
            Some(96)
        } else if internal_format == 35919 && format == 0 && ty == 0 {
            Some(138)
        } else if internal_format == 36233 && format == 36248 && ty == 5122 {
            Some(89)
        } else if internal_format == 32859 && format == 6408 && ty == 5123 {
            Some(91)
        } else if internal_format == 37489 && format == 0 && ty == 0 {
            Some(154)
        } else if internal_format == 36975 && format == 36249 && ty == 33640 {
            Some(68)
        } else if internal_format == 37808 && format == 0 && ty == 0 {
            Some(157)
        } else if internal_format == 37840 && format == 0 && ty == 0 {
            Some(158)
        } else if internal_format == 32849 && format == 32992 && ty == 5121 {
            Some(30)
        } else if internal_format == 36013 && format == 34041 && ty == 36269 {
            Some(130)
        } else if internal_format == 35843 && format == 0 && ty == 0 {
            Some(1000054000)
        } else if internal_format == 36494 && format == 0 && ty == 0 {
            Some(144)
        } else if internal_format == 36285 && format == 0 && ty == 0 {
            Some(141)
        } else if internal_format == 36761 && format == 33319 && ty == 5122 {
            Some(78)
        } else if internal_format == 33332 && format == 36244 && ty == 5123 {
            Some(74)
        } else if internal_format == 37814 && format == 0 && ty == 0 {
            Some(169)
        } else if internal_format == 37176 && format == 0 && ty == 0 {
            Some(1000054003)
        } else if internal_format == 37873 && format == 0 && ty == 0 {
            Some(1000054007)
        } else if internal_format == 36760 && format == 6403 && ty == 5122 {
            Some(71)
        } else if internal_format == 36759 && format == 32993 && ty == 5120 {
            Some(45)
        } else if internal_format == 33333 && format == 36244 && ty == 5124 {
            Some(99)
        } else if internal_format == 37812 && format == 0 && ty == 0 {
            Some(165)
        } else if internal_format == 36220 && format == 36251 && ty == 5121 {
            Some(48)
        } else if internal_format == 33779 && format == 0 && ty == 0 {
            Some(137)
        } else if internal_format == 37493 && format == 0 && ty == 0 {
            Some(148)
        } else if internal_format == 37811 && format == 0 && ty == 0 {
            Some(163)
        } else if internal_format == 37846 && format == 0 && ty == 0 {
            Some(170)
        } else if internal_format == 37851 && format == 0 && ty == 0 {
            Some(180)
        } else if internal_format == 37816 && format == 0 && ty == 0 {
            Some(173)
        } else if internal_format == 33334 && format == 36244 && ty == 5125 {
            Some(98)
        } else if internal_format == 36762 && format == 6407 && ty == 5122 {
            Some(85)
        } else if internal_format == 36221 && format == 36250 && ty == 5121 {
            Some(34)
        } else if internal_format == 37843 && format == 0 && ty == 0 {
            Some(164)
        } else if internal_format == 36012 && format == 6402 && ty == 5126 {
            Some(126)
        } else if internal_format == 37497 && format == 0 && ty == 0 {
            Some(152)
        } else if internal_format == 33337 && format == 33320 && ty == 5122 {
            Some(82)
        } else if internal_format == 32856 && format == 6408 && ty == 5121 {
            Some(37)
        } else if internal_format == 33335 && format == 33320 && ty == 5120 {
            Some(21)
        } else if internal_format == 36798 && format == 33319 && ty == 5121 {
            Some(22)
        } else if internal_format == 32849 && format == 6407 && ty == 5121 {
            Some(23)
        } else if internal_format == 36975 && format == 36251 && ty == 33640 {
            Some(62)
        } else if internal_format == 36495 && format == 0 && ty == 0 {
            Some(143)
        } else if internal_format == 37849 && format == 0 && ty == 0 {
            Some(176)
        } else if internal_format == 37852 && format == 0 && ty == 0 {
            Some(182)
        } else if internal_format == 35414 && format == 0 && ty == 0 {
            Some(1000054004)
        } else if internal_format == 33323 && format == 33319 && ty == 5121 {
            Some(16)
        } else if internal_format == 36239 && format == 36248 && ty == 5120 {
            Some(28)
        } else if internal_format == 35907 && format == 6408 && ty == 5121 {
            Some(43)
        } else if internal_format == 35916 && format == 0 && ty == 0 {
            Some(132)
        } else if internal_format == 37819 && format == 0 && ty == 0 {
            Some(179)
        } else if internal_format == 32854 && format == 6408 && ty == 32819 {
            Some(2)
        } else if internal_format == 37821 && format == 0 && ty == 0 {
            Some(183)
        } else if internal_format == 32852 && format == 6407 && ty == 5123 {
            Some(84)
        } else if internal_format == 36214 && format == 36249 && ty == 5123 {
            Some(95)
        } else if internal_format == 33328 && format == 33319 && ty == 5126 {
            Some(103)
        } else if internal_format == 37491 && format == 0 && ty == 0 {
            Some(156)
        } else if internal_format == 36215 && format == 36248 && ty == 5123 {
            Some(88)
        } else if internal_format == 34843 && format == 6407 && ty == 5131 {
            Some(90)
        } else if internal_format == 33340 && format == 33320 && ty == 5125 {
            Some(101)
        } else if internal_format == 37175 && format == 0 && ty == 0 {
            Some(1000054002)
        } else if internal_format == 37844 && format == 0 && ty == 0 {
            Some(166)
        } else if internal_format == 36758 && format == 32992 && ty == 5120 {
            Some(31)
        } else if internal_format == 37845 && format == 0 && ty == 0 {
            Some(168)
        } else if internal_format == 33321 && format == 6403 && ty == 5121 {
            Some(9)
        } else if internal_format == 34842 && format == 6408 && ty == 5131 {
            Some(97)
        } else if internal_format == 33189 && format == 6402 && ty == 5123 {
            Some(124)
        } else if internal_format == 36221 && format == 36248 && ty == 5121 {
            Some(27)
        } else if internal_format == 35917 && format == 0 && ty == 0 {
            Some(134)
        } else if internal_format == 37810 && format == 0 && ty == 0 {
            Some(161)
        } else if internal_format == 33338 && format == 33320 && ty == 5123 {
            Some(81)
        } else if internal_format == 36492 && format == 0 && ty == 0 {
            Some(145)
        } else if internal_format == 37492 && format == 0 && ty == 0 {
            Some(147)
        } else if internal_format == 37848 && format == 0 && ty == 0 {
            Some(174)
        } else if internal_format == 35907 && format == 32993 && ty == 5121 {
            Some(50)
        } else if internal_format == 33327 && format == 33319 && ty == 5131 {
            Some(83)
        } else if internal_format == 32855 && format == 32993 && ty == 32820 {
            Some(7)
        } else if internal_format == 36493 && format == 0 && ty == 0 {
            Some(146)
        } else if internal_format == 36239 && format == 36250 && ty == 5120 {
            Some(35)
        } else if internal_format == 37495 && format == 0 && ty == 0 {
            Some(150)
        } else if internal_format == 37841 && format == 0 && ty == 0 {
            Some(160)
        } else if internal_format == 36763 && format == 6408 && ty == 5122 {
            Some(92)
        } else if internal_format == 33331 && format == 36244 && ty == 5122 {
            Some(75)
        } else if internal_format == 35901 && format == 6407 && ty == 35902 {
            Some(123)
        } else if internal_format == 35056 && format == 34041 && ty == 34042 {
            Some(129)
        } else if internal_format == 37496 && format == 0 && ty == 0 {
            Some(151)
        } else if internal_format == 36284 && format == 0 && ty == 0 {
            Some(140)
        } else if internal_format == 37817 && format == 0 && ty == 0 {
            Some(175)
        } else if internal_format == 36220 && format == 36249 && ty == 5121 {
            Some(41)
        } else if internal_format == 33190 && format == 6402 && ty == 5125 {
            Some(125)
        } else if internal_format == 32857 && format == 32993 && ty == 33640 {
            Some(58)
        } else if internal_format == 36194 && format == 6407 && ty == 33636 {
            Some(5)
        } else if internal_format == 37850 && format == 0 && ty == 0 {
            Some(178)
        } else if internal_format == 36757 && format == 33319 && ty == 5120 {
            Some(17)
        } else if internal_format == 33776 && format == 0 && ty == 0 {
            Some(131)
        } else if internal_format == 36283 && format == 0 && ty == 0 {
            Some(139)
        } else if internal_format == 37813 && format == 0 && ty == 0 {
            Some(167)
        } else if internal_format == 37490 && format == 0 && ty == 0 {
            Some(155)
        } else if internal_format == 32855 && format == 6408 && ty == 32820 {
            Some(6)
        } else if internal_format == 37815 && format == 0 && ty == 0 {
            Some(171)
        } else {
            None
        };
        match code {
            Some(c) => Ok(c),
            None => Err(KtxError::UnknownFormat),
        }
    }
}

} // verus!
