//! The algebra laws of the 4x4 matrices, proved over the specification
//! model: the adjugate identity and the inverse law, singularity on repeated
//! columns, transpose involution, and associativity of the matrix product.

use crate::matrix4::M4;
use crate::matrix4::m4_adjugate;
use crate::matrix4::m4_det;
use crate::matrix4::m4_identity;
use crate::matrix4::m4_inverse;
use crate::matrix4::m4_mul;
use crate::matrix4::m4_scalar_mul;
use crate::matrix4::m4_sim;
use crate::matrix4::m4_transpose;
use crate::matrix4::m4_vec_mul;
use crate::matrix4::m4_wf;
use crate::scalar::lemma_recip_cross;
use crate::scalar::rat_from_int;
use crate::scalar::rat_recip;
use crate::scalar::rat_sim;
use crate::vector::v4_sim;
use vstd::prelude::*;

verus! {

proof fn adj4_col_x(m: M4)
    ensures
        m4_vec_mul(m, m4_adjugate(m).x).x == m4_det(m).n,
        m4_vec_mul(m, m4_adjugate(m).x).y == 0,
        m4_vec_mul(m, m4_adjugate(m).x).z == 0,
        m4_vec_mul(m, m4_adjugate(m).x).w == 0,
{
    let g0: int = (0 - m.w.y * m.z.z) + m.w.z * m.z.y;
    let g1: int = (0 - m.w.y * m.y.w * m.z.z) + m.w.z * m.y.w * m.z.y;
    let g2: int = m.w.y * m.y.z - m.w.z * m.y.y;
    let g3: int = m.w.y * m.y.z * m.z.w - m.w.z * m.y.y * m.z.w;
    let g4: int = (0 - m.w.y * m.y.w * m.z.z) + m.w.y * m.y.z * m.z.w;
    let g5: int = g4 + m.w.z * m.y.w * m.z.y;
    let g6: int = g5 - m.w.z * m.y.y * m.z.w;
    let g7: int = m.y.y * m.z.z - m.y.z * m.z.y;
    let g8: int = m.w.w * m.y.y * m.z.z - m.w.w * m.y.z * m.z.y;
    let g9: int = g8 - m.w.y * m.y.w * m.z.z;
    let g10: int = g9 + m.w.y * m.y.z * m.z.w;
    let g11: int = g10 + m.w.z * m.y.w * m.z.y;
    let g12: int = g11 - m.w.z * m.y.y * m.z.w;
    let g13: int = m.w.w * m.x.x * m.y.y * m.z.z - m.w.w * m.x.x * m.y.z * m.z.y;
    let g14: int = g13 - m.w.y * m.x.x * m.y.w * m.z.z;
    let g15: int = g14 + m.w.y * m.x.x * m.y.z * m.z.w;
    let g16: int = g15 + m.w.z * m.x.x * m.y.w * m.z.y;
    let g17: int = g16 - m.w.z * m.x.x * m.y.y * m.z.w;
    let g18: int = (0 - m.w.y * m.x.w * m.z.z) + m.w.z * m.x.w * m.z.y;
    let g19: int = m.w.y * m.x.z - m.w.z * m.x.y;
    let g20: int = m.w.y * m.x.z * m.z.w - m.w.z * m.x.y * m.z.w;
    let g21: int = (0 - m.w.y * m.x.w * m.z.z) + m.w.y * m.x.z * m.z.w;
    let g22: int = g21 + m.w.z * m.x.w * m.z.y;
    let g23: int = g22 - m.w.z * m.x.y * m.z.w;
    let g24: int = m.x.y * m.z.z - m.x.z * m.z.y;
    let g25: int = m.w.w * m.x.y * m.z.z - m.w.w * m.x.z * m.z.y;
    let g26: int = g25 - m.w.y * m.x.w * m.z.z;
    let g27: int = g26 + m.w.y * m.x.z * m.z.w;
    let g28: int = g27 + m.w.z * m.x.w * m.z.y;
    let g29: int = g28 - m.w.z * m.x.y * m.z.w;
    let g30: int = (0 - m.w.w * m.x.y * m.z.z) + m.w.w * m.x.z * m.z.y;
    let g31: int = g30 + m.w.y * m.x.w * m.z.z;
    let g32: int = g31 - m.w.y * m.x.z * m.z.w;
    let g33: int = g32 - m.w.z * m.x.w * m.z.y;
    let g34: int = g33 + m.w.z * m.x.y * m.z.w;
    let g35: int = (0 - m.w.w * m.x.y * m.y.x * m.z.z) + m.w.w * m.x.z * m.y.x * m.z.y;
    let g36: int = g35 + m.w.y * m.x.w * m.y.x * m.z.z;
    let g37: int = g36 - m.w.y * m.x.z * m.y.x * m.z.w;
    let g38: int = g37 - m.w.z * m.x.w * m.y.x * m.z.y;
    let g39: int = g38 + m.w.z * m.x.y * m.y.x * m.z.w;
    let g40: int = g13 - m.w.w * m.x.y * m.y.x * m.z.z;
    let g41: int = g40 + m.w.w * m.x.z * m.y.x * m.z.y;
    let g42: int = g41 + m.w.y * m.x.w * m.y.x * m.z.z;
    let g43: int = g42 - m.w.y * m.x.x * m.y.w * m.z.z;
    let g44: int = g43 + m.w.y * m.x.x * m.y.z * m.z.w;
    let g45: int = g44 - m.w.y * m.x.z * m.y.x * m.z.w;
    let g46: int = g45 - m.w.z * m.x.w * m.y.x * m.z.y;
    let g47: int = g46 + m.w.z * m.x.x * m.y.w * m.z.y;
    let g48: int = g47 - m.w.z * m.x.x * m.y.y * m.z.w;
    let g49: int = g48 + m.w.z * m.x.y * m.y.x * m.z.w;
    let g50: int = (0 - m.w.y * m.y.z) + m.w.z * m.y.y;
    let g51: int = (0 - m.w.y * m.x.w * m.y.z) + m.w.z * m.x.w * m.y.y;
    let g52: int = m.w.y * m.x.z * m.y.w - m.w.z * m.x.y * m.y.w;
    let g53: int = (0 - m.w.y * m.x.w * m.y.z) + m.w.y * m.x.z * m.y.w;
    let g54: int = g53 + m.w.z * m.x.w * m.y.y;
    let g55: int = g54 - m.w.z * m.x.y * m.y.w;
    let g56: int = m.x.y * m.y.z - m.x.z * m.y.y;
    let g57: int = m.w.w * m.x.y * m.y.z - m.w.w * m.x.z * m.y.y;
    let g58: int = g57 - m.w.y * m.x.w * m.y.z;
    let g59: int = g58 + m.w.y * m.x.z * m.y.w;
    let g60: int = g59 + m.w.z * m.x.w * m.y.y;
    let g61: int = g60 - m.w.z * m.x.y * m.y.w;
    let g62: int = m.w.w * m.x.y * m.y.z * m.z.x - m.w.w * m.x.z * m.y.y * m.z.x;
    let g63: int = g62 - m.w.y * m.x.w * m.y.z * m.z.x;
    let g64: int = g63 + m.w.y * m.x.z * m.y.w * m.z.x;
    let g65: int = g64 + m.w.z * m.x.w * m.y.y * m.z.x;
    let g66: int = g65 - m.w.z * m.x.y * m.y.w * m.z.x;
    let g67: int = g40 + m.w.w * m.x.y * m.y.z * m.z.x;
    let g68: int = g67 + m.w.w * m.x.z * m.y.x * m.z.y;
    let g69: int = g68 - m.w.w * m.x.z * m.y.y * m.z.x;
    let g70: int = g69 + m.w.y * m.x.w * m.y.x * m.z.z;
    let g71: int = g70 - m.w.y * m.x.w * m.y.z * m.z.x;
    let g72: int = g71 - m.w.y * m.x.x * m.y.w * m.z.z;
    let g73: int = g72 + m.w.y * m.x.x * m.y.z * m.z.w;
    let g74: int = g73 + m.w.y * m.x.z * m.y.w * m.z.x;
    let g75: int = g74 - m.w.y * m.x.z * m.y.x * m.z.w;
    let g76: int = g75 - m.w.z * m.x.w * m.y.x * m.z.y;
    let g77: int = g76 + m.w.z * m.x.w * m.y.y * m.z.x;
    let g78: int = g77 + m.w.z * m.x.x * m.y.w * m.z.y;
    let g79: int = g78 - m.w.z * m.x.x * m.y.y * m.z.w;
    let g80: int = g79 - m.w.z * m.x.y * m.y.w * m.z.x;
    let g81: int = g80 + m.w.z * m.x.y * m.y.x * m.z.w;
    let g82: int = m.x.w * m.y.y * m.z.z - m.x.w * m.y.z * m.z.y;
    let g83: int = (0 - m.x.y * m.z.z) + m.x.z * m.z.y;
    let g84: int = (0 - m.x.y * m.y.w * m.z.z) + m.x.z * m.y.w * m.z.y;
    let g85: int = g82 - m.x.y * m.y.w * m.z.z;
    let g86: int = g85 + m.x.z * m.y.w * m.z.y;
    let g87: int = m.x.y * m.y.z * m.z.w - m.x.z * m.y.y * m.z.w;
    let g88: int = g85 + m.x.y * m.y.z * m.z.w;
    let g89: int = g88 + m.x.z * m.y.w * m.z.y;
    let g90: int = g89 - m.x.z * m.y.y * m.z.w;
    let g91: int = (0 - m.x.w * m.y.y * m.z.z) + m.x.w * m.y.z * m.z.y;
    let g92: int = g91 + m.x.y * m.y.w * m.z.z;
    let g93: int = g92 - m.x.y * m.y.z * m.z.w;
    let g94: int = g93 - m.x.z * m.y.w * m.z.y;
    let g95: int = g94 + m.x.z * m.y.y * m.z.w;
    let g96: int = (0 - m.w.x * m.x.w * m.y.y * m.z.z) + m.w.x * m.x.w * m.y.z * m.z.y;
    let g97: int = g96 + m.w.x * m.x.y * m.y.w * m.z.z;
    let g98: int = g97 - m.w.x * m.x.y * m.y.z * m.z.w;
    let g99: int = g98 - m.w.x * m.x.z * m.y.w * m.z.y;
    let g100: int = g99 + m.w.x * m.x.z * m.y.y * m.z.w;
    let g101: int = g69 - m.w.x * m.x.w * m.y.y * m.z.z;
    let g102: int = g101 + m.w.x * m.x.w * m.y.z * m.z.y;
    let g103: int = g102 + m.w.x * m.x.y * m.y.w * m.z.z;
    let g104: int = g103 - m.w.x * m.x.y * m.y.z * m.z.w;
    let g105: int = g104 - m.w.x * m.x.z * m.y.w * m.z.y;
    let g106: int = g105 + m.w.x * m.x.z * m.y.y * m.z.w;
    let g107: int = g106 + m.w.y * m.x.w * m.y.x * m.z.z;
    let g108: int = g107 - m.w.y * m.x.w * m.y.z * m.z.x;
    let g109: int = g108 - m.w.y * m.x.x * m.y.w * m.z.z;
    let g110: int = g109 + m.w.y * m.x.x * m.y.z * m.z.w;
    let g111: int = g110 + m.w.y * m.x.z * m.y.w * m.z.x;
    let g112: int = g111 - m.w.y * m.x.z * m.y.x * m.z.w;
    let g113: int = g112 - m.w.z * m.x.w * m.y.x * m.z.y;
    let g114: int = g113 + m.w.z * m.x.w * m.y.y * m.z.x;
    let g115: int = g114 + m.w.z * m.x.x * m.y.w * m.z.y;
    let g116: int = g115 - m.w.z * m.x.x * m.y.y * m.z.w;
    let g117: int = g116 - m.w.z * m.x.y * m.y.w * m.z.x;
    let g118: int = g117 + m.w.z * m.x.y * m.y.x * m.z.w;
    let g119: int = m.w.w * m.x.y * m.y.y * m.z.z - m.w.w * m.x.y * m.y.z * m.z.y;
    let g120: int = g119 - m.w.y * m.x.y * m.y.w * m.z.z;
    let g121: int = g120 + m.w.y * m.x.y * m.y.z * m.z.w;
    let g122: int = g121 + m.w.z * m.x.y * m.y.w * m.z.y;
    let g123: int = g122 - m.w.z * m.x.y * m.y.y * m.z.w;
    let g124: int = (0 - m.w.w * m.x.y * m.y.y * m.z.z) + m.w.w * m.x.z * m.y.y * m.z.y;
    let g125: int = g124 + m.w.y * m.x.w * m.y.y * m.z.z;
    let g126: int = g125 - m.w.y * m.x.z * m.y.y * m.z.w;
    let g127: int = g126 - m.w.z * m.x.w * m.y.y * m.z.y;
    let g128: int = g127 + m.w.z * m.x.y * m.y.y * m.z.w;
    let g129: int = (0 - m.w.w * m.x.y * m.y.z * m.z.y) + m.w.w * m.x.z * m.y.y * m.z.y;
    let g130: int = g129 + m.w.y * m.x.w * m.y.y * m.z.z;
    let g131: int = g130 - m.w.y * m.x.y * m.y.w * m.z.z;
    let g132: int = g131 + m.w.y * m.x.y * m.y.z * m.z.w;
    let g133: int = g132 - m.w.y * m.x.z * m.y.y * m.z.w;
    let g134: int = g133 - m.w.z * m.x.w * m.y.y * m.z.y;
    let g135: int = g134 + m.w.z * m.x.y * m.y.w * m.z.y;
    let g136: int = m.w.w * m.x.y * m.y.z * m.z.y - m.w.w * m.x.z * m.y.y * m.z.y;
    let g137: int = g136 - m.w.y * m.x.w * m.y.z * m.z.y;
    let g138: int = g137 + m.w.y * m.x.z * m.y.w * m.z.y;
    let g139: int = g138 + m.w.z * m.x.w * m.y.y * m.z.y;
    let g140: int = g139 - m.w.z * m.x.y * m.y.w * m.z.y;
    let g141: int = m.w.y * m.x.w * m.y.y * m.z.z - m.w.y * m.x.w * m.y.z * m.z.y;
    let g142: int = g141 - m.w.y * m.x.y * m.y.w * m.z.z;
    let g143: int = g142 + m.w.y * m.x.y * m.y.z * m.z.w;
    let g144: int = g143 + m.w.y * m.x.z * m.y.w * m.z.y;
    let g145: int = g144 - m.w.y * m.x.z * m.y.y * m.z.w;
    let g146: int = (0 - m.w.y * m.x.w * m.y.y * m.z.z) + m.w.y * m.x.w * m.y.z * m.z.y;
    let g147: int = g146 + m.w.y * m.x.y * m.y.w * m.z.z;
    let g148: int = g147 - m.w.y * m.x.y * m.y.z * m.z.w;
    let g149: int = g148 - m.w.y * m.x.z * m.y.w * m.z.y;
    let g150: int = g149 + m.w.y * m.x.z * m.y.y * m.z.w;
    let g151: int = m.w.w * m.x.z * m.y.y * m.z.z - m.w.w * m.x.z * m.y.z * m.z.y;
    let g152: int = g151 - m.w.y * m.x.z * m.y.w * m.z.z;
    let g153: int = g152 + m.w.y * m.x.z * m.y.z * m.z.w;
    let g154: int = g153 + m.w.z * m.x.z * m.y.w * m.z.y;
    let g155: int = g154 - m.w.z * m.x.z * m.y.y * m.z.w;
    let g156: int = (0 - m.w.w * m.x.y * m.y.z * m.z.z) + m.w.w * m.x.z * m.y.z * m.z.y;
    let g157: int = g156 + m.w.y * m.x.w * m.y.z * m.z.z;
    let g158: int = g157 - m.w.y * m.x.z * m.y.z * m.z.w;
    let g159: int = g158 - m.w.z * m.x.w * m.y.z * m.z.y;
    let g160: int = g159 + m.w.z * m.x.y * m.y.z * m.z.w;
    let g161: int = (0 - m.w.w * m.x.y * m.y.z * m.z.z) + m.w.w * m.x.z * m.y.y * m.z.z;
    let g162: int = g161 + m.w.y * m.x.w * m.y.z * m.z.z;
    let g163: int = g162 - m.w.y * m.x.z * m.y.w * m.z.z;
    let g164: int = g163 - m.w.z * m.x.w * m.y.z * m.z.y;
    let g165: int = g164 + m.w.z * m.x.y * m.y.z * m.z.w;
    let g166: int = g165 + m.w.z * m.x.z * m.y.w * m.z.y;
    let g167: int = g166 - m.w.z * m.x.z * m.y.y * m.z.w;
    let g168: int = m.w.w * m.x.y * m.y.z * m.z.z - m.w.w * m.x.z * m.y.y * m.z.z;
    let g169: int = g168 - m.w.y * m.x.w * m.y.z * m.z.z;
    let g170: int = g169 + m.w.y * m.x.z * m.y.w * m.z.z;
    let g171: int = g170 + m.w.z * m.x.w * m.y.y * m.z.z;
    let g172: int = g171 - m.w.z * m.x.y * m.y.w * m.z.z;
    let g173: int = m.w.z * m.x.w * m.y.y * m.z.z - m.w.z * m.x.w * m.y.z * m.z.y;
    let g174: int = g173 - m.w.z * m.x.y * m.y.w * m.z.z;
    let g175: int = g174 + m.w.z * m.x.y * m.y.z * m.z.w;
    let g176: int = g175 + m.w.z * m.x.z * m.y.w * m.z.y;
    let g177: int = g176 - m.w.z * m.x.z * m.y.y * m.z.w;
    let g178: int = (0 - m.w.z * m.x.w * m.y.y * m.z.z) + m.w.z * m.x.w * m.y.z * m.z.y;
    let g179: int = g178 + m.w.z * m.x.y * m.y.w * m.z.z;
    let g180: int = g179 - m.w.z * m.x.y * m.y.z * m.z.w;
    let g181: int = g180 - m.w.z * m.x.z * m.y.w * m.z.y;
    let g182: int = g181 + m.w.z * m.x.z * m.y.y * m.z.w;
    let g183: int = m.w.w * m.x.w * m.y.y * m.z.z - m.w.w * m.x.w * m.y.z * m.z.y;
    let g184: int = g183 - m.w.y * m.x.w * m.y.w * m.z.z;
    let g185: int = g184 + m.w.y * m.x.w * m.y.z * m.z.w;
    let g186: int = g185 + m.w.z * m.x.w * m.y.w * m.z.y;
    let g187: int = g186 - m.w.z * m.x.w * m.y.y * m.z.w;
    let g188: int = (0 - m.w.w * m.x.y * m.y.w * m.z.z) + m.w.w * m.x.z * m.y.w * m.z.y;
    let g189: int = g188 + m.w.y * m.x.w * m.y.w * m.z.z;
    let g190: int = g189 - m.w.y * m.x.z * m.y.w * m.z.w;
    let g191: int = g190 - m.w.z * m.x.w * m.y.w * m.z.y;
    let g192: int = g191 + m.w.z * m.x.y * m.y.w * m.z.w;
    let g193: int = g183 - m.w.w * m.x.y * m.y.w * m.z.z;
    let g194: int = g193 + m.w.w * m.x.z * m.y.w * m.z.y;
    let g195: int = g194 + m.w.y * m.x.w * m.y.z * m.z.w;
    let g196: int = g195 - m.w.y * m.x.z * m.y.w * m.z.w;
    let g197: int = g196 - m.w.z * m.x.w * m.y.y * m.z.w;
    let g198: int = g197 + m.w.z * m.x.y * m.y.w * m.z.w;
    let g199: int = m.w.w * m.x.y * m.y.z * m.z.w - m.w.w * m.x.z * m.y.y * m.z.w;
    let g200: int = g199 - m.w.y * m.x.w * m.y.z * m.z.w;
    let g201: int = g200 + m.w.y * m.x.z * m.y.w * m.z.w;
    let g202: int = g201 + m.w.z * m.x.w * m.y.y * m.z.w;
    let g203: int = g202 - m.w.z * m.x.y * m.y.w * m.z.w;
    let g204: int = g193 + m.w.w * m.x.y * m.y.z * m.z.w;
    let g205: int = g204 + m.w.w * m.x.z * m.y.w * m.z.y;
    let g206: int = g205 - m.w.w * m.x.z * m.y.y * m.z.w;
    let g207: int = (0 - m.w.w * m.x.w * m.y.y * m.z.z) + m.w.w * m.x.w * m.y.z * m.z.y;
    let g208: int = g207 + m.w.w * m.x.y * m.y.w * m.z.z;
    let g209: int = g208 - m.w.w * m.x.y * m.y.z * m.z.w;
    let g210: int = g209 - m.w.w * m.x.z * m.y.w * m.z.y;
    let g211: int = g210 + m.w.w * m.x.z * m.y.y * m.z.w;
    let g212: int = m.w.w * m.x.y * m.y.x * m.z.z - m.w.w * m.x.z * m.y.x * m.z.y;
    let g213: int = g212 - m.w.y * m.x.w * m.y.x * m.z.z;
    let g214: int = g213 + m.w.y * m.x.z * m.y.x * m.z.w;
    let g215: int = g214 + m.w.z * m.x.w * m.y.x * m.z.y;
    let g216: int = g215 - m.w.z * m.x.y * m.y.x * m.z.w;
    let g217: int = m.w.x * m.x.w * m.y.y * m.z.z - m.w.x * m.x.w * m.y.z * m.z.y;
    let g218: int = g217 - m.w.x * m.x.y * m.y.w * m.z.z;
    let g219: int = g218 + m.w.x * m.x.y * m.y.z * m.z.w;
    let g220: int = g219 + m.w.x * m.x.z * m.y.w * m.z.y;
    let g221: int = g220 - m.w.x * m.x.z * m.y.y * m.z.w;
    assert(m.z.y * m.w.z == m.w.z * m.z.y
        && ((0 - m.w.y * m.z.z) + m.w.z * m.z.y) * (m.y.w) == (0 - m.w.y * m.z.z) * (m.y.w) + (m.w.z * m.z.y) * (m.y.w)
        && ((0 - m.w.y * m.z.z)) * (m.y.w) == (0 - m.w.y * m.y.w * m.z.z)
        && (m.w.z * m.z.y) * m.y.w == m.w.z * m.y.w * m.z.y
    ) by (nonlinear_arith);
    assert(m.y.y * m.w.z == m.w.z * m.y.y
        && (m.w.y * m.y.z - m.w.z * m.y.y) * (m.z.w) == m.w.y * m.y.z * (m.z.w) - (m.w.z * m.y.y) * (m.z.w)
        && m.z.y * m.y.z == m.y.z * m.z.y
        && (m.y.y * m.z.z - m.y.z * m.z.y) * (m.w.w) == m.y.y * m.z.z * (m.w.w) - (m.y.z * m.z.y) * (m.w.w)
    ) by (nonlinear_arith);
    assert((m.y.y * m.z.z) * m.w.w == m.w.w * m.y.y * m.z.z
        && (m.y.z * m.z.y) * m.w.w == m.w.w * m.y.z * m.z.y
        && (m.x.x) * (g11 - m.w.z * m.y.y * m.z.w) == (m.x.x) * (g11) - (m.x.x) * (m.w.z * m.y.y * m.z.w)
    ) by (nonlinear_arith);
    assert((m.x.x) * (g10 + m.w.z * m.y.w * m.z.y) == (m.x.x) * (g10) + (m.x.x) * (m.w.z * m.y.w * m.z.y)
        && (m.x.x) * (g9 + m.w.y * m.y.z * m.z.w) == (m.x.x) * (g9) + (m.x.x) * (m.w.y * m.y.z * m.z.w)
    ) by (nonlinear_arith);
    assert((m.x.x) * (g8 - m.w.y * m.y.w * m.z.z) == (m.x.x) * (g8) - (m.x.x) * (m.w.y * m.y.w * m.z.z)
        && (m.x.x) * (m.w.w * m.y.y * m.z.z - m.w.w * m.y.z * m.z.y) == (m.x.x) * (m.w.w * m.y.y * m.z.z) - (m.x.x) * (m.w.w * m.y.z * m.z.y)
    ) by (nonlinear_arith);
    assert(m.x.x * (m.w.w * m.y.y * m.z.z) == m.w.w * m.x.x * m.y.y * m.z.z
        && m.x.x * (m.w.w * m.y.z * m.z.y) == m.w.w * m.x.x * m.y.z * m.z.y
        && m.x.x * (m.w.y * m.y.w * m.z.z) == m.w.y * m.x.x * m.y.w * m.z.z
    ) by (nonlinear_arith);
    assert(m.x.x * (m.w.y * m.y.z * m.z.w) == m.w.y * m.x.x * m.y.z * m.z.w
        && m.x.x * (m.w.z * m.y.w * m.z.y) == m.w.z * m.x.x * m.y.w * m.z.y
        && m.x.x * (m.w.z * m.y.y * m.z.w) == m.w.z * m.x.x * m.y.y * m.z.w
    ) by (nonlinear_arith);
    assert(((0 - m.w.y * m.z.z) + m.w.z * m.z.y) * (m.x.w) == (0 - m.w.y * m.z.z) * (m.x.w) + (m.w.z * m.z.y) * (m.x.w)
        && ((0 - m.w.y * m.z.z)) * (m.x.w) == (0 - m.w.y * m.x.w * m.z.z)
        && (m.w.z * m.z.y) * m.x.w == m.w.z * m.x.w * m.z.y
        && m.x.y * m.w.z == m.w.z * m.x.y
    ) by (nonlinear_arith);
    assert((m.w.y * m.x.z - m.w.z * m.x.y) * (m.z.w) == m.w.y * m.x.z * (m.z.w) - (m.w.z * m.x.y) * (m.z.w)
        && m.z.y * m.x.z == m.x.z * m.z.y
        && (m.x.y * m.z.z - m.x.z * m.z.y) * (m.w.w) == m.x.y * m.z.z * (m.w.w) - (m.x.z * m.z.y) * (m.w.w)
    ) by (nonlinear_arith);
    assert((m.x.y * m.z.z) * m.w.w == m.w.w * m.x.y * m.z.z
        && (m.x.z * m.z.y) * m.w.w == m.w.w * m.x.z * m.z.y
        && (m.y.x) * (g33 + m.w.z * m.x.y * m.z.w) == (m.y.x) * (g33) + (m.y.x) * (m.w.z * m.x.y * m.z.w)
    ) by (nonlinear_arith);
    assert((m.y.x) * (g32 - m.w.z * m.x.w * m.z.y) == (m.y.x) * (g32) - (m.y.x) * (m.w.z * m.x.w * m.z.y)
        && (m.y.x) * (g31 - m.w.y * m.x.z * m.z.w) == (m.y.x) * (g31) - (m.y.x) * (m.w.y * m.x.z * m.z.w)
    ) by (nonlinear_arith);
    assert((m.y.x) * (g30 + m.w.y * m.x.w * m.z.z) == (m.y.x) * (g30) + (m.y.x) * (m.w.y * m.x.w * m.z.z)
        && (m.y.x) * ((0 - m.w.w * m.x.y * m.z.z) + m.w.w * m.x.z * m.z.y) == (m.y.x) * ((0 - m.w.w * m.x.y * m.z.z)) + (m.y.x) * (m.w.w * m.x.z * m.z.y)
    ) by (nonlinear_arith);
    assert((m.y.x) * ((0 - m.w.w * m.x.y * m.z.z)) == (0 - m.w.w * m.x.y * m.y.x * m.z.z)
        && m.y.x * (m.w.w * m.x.z * m.z.y) == m.w.w * m.x.z * m.y.x * m.z.y
        && m.y.x * (m.w.y * m.x.w * m.z.z) == m.w.y * m.x.w * m.y.x * m.z.z
    ) by (nonlinear_arith);
    assert(m.y.x * (m.w.y * m.x.z * m.z.w) == m.w.y * m.x.z * m.y.x * m.z.w
        && m.y.x * (m.w.z * m.x.w * m.z.y) == m.w.z * m.x.w * m.y.x * m.z.y
        && m.y.x * (m.w.z * m.x.y * m.z.w) == m.w.z * m.x.y * m.y.x * m.z.w
    ) by (nonlinear_arith);
    assert(((0 - m.w.y * m.y.z) + m.w.z * m.y.y) * (m.x.w) == (0 - m.w.y * m.y.z) * (m.x.w) + (m.w.z * m.y.y) * (m.x.w)
        && ((0 - m.w.y * m.y.z)) * (m.x.w) == (0 - m.w.y * m.x.w * m.y.z)
        && (m.w.z * m.y.y) * m.x.w == m.w.z * m.x.w * m.y.y
    ) by (nonlinear_arith);
    assert((m.w.y * m.x.z - m.w.z * m.x.y) * (m.y.w) == m.w.y * m.x.z * (m.y.w) - (m.w.z * m.x.y) * (m.y.w)
        && m.y.y * m.x.z == m.x.z * m.y.y
        && (m.x.y * m.y.z - m.x.z * m.y.y) * (m.w.w) == m.x.y * m.y.z * (m.w.w) - (m.x.z * m.y.y) * (m.w.w)
    ) by (nonlinear_arith);
    assert((m.x.y * m.y.z) * m.w.w == m.w.w * m.x.y * m.y.z
        && (m.x.z * m.y.y) * m.w.w == m.w.w * m.x.z * m.y.y
        && (m.z.x) * (g60 - m.w.z * m.x.y * m.y.w) == (m.z.x) * (g60) - (m.z.x) * (m.w.z * m.x.y * m.y.w)
    ) by (nonlinear_arith);
    assert((m.z.x) * (g59 + m.w.z * m.x.w * m.y.y) == (m.z.x) * (g59) + (m.z.x) * (m.w.z * m.x.w * m.y.y)
        && (m.z.x) * (g58 + m.w.y * m.x.z * m.y.w) == (m.z.x) * (g58) + (m.z.x) * (m.w.y * m.x.z * m.y.w)
    ) by (nonlinear_arith);
    assert((m.z.x) * (g57 - m.w.y * m.x.w * m.y.z) == (m.z.x) * (g57) - (m.z.x) * (m.w.y * m.x.w * m.y.z)
        && (m.z.x) * (m.w.w * m.x.y * m.y.z - m.w.w * m.x.z * m.y.y) == (m.z.x) * (m.w.w * m.x.y * m.y.z) - (m.z.x) * (m.w.w * m.x.z * m.y.y)
    ) by (nonlinear_arith);
    assert(m.z.x * (m.w.w * m.x.y * m.y.z) == m.w.w * m.x.y * m.y.z * m.z.x
        && m.z.x * (m.w.w * m.x.z * m.y.y) == m.w.w * m.x.z * m.y.y * m.z.x
        && m.z.x * (m.w.y * m.x.w * m.y.z) == m.w.y * m.x.w * m.y.z * m.z.x
    ) by (nonlinear_arith);
    assert(m.z.x * (m.w.y * m.x.z * m.y.w) == m.w.y * m.x.z * m.y.w * m.z.x
        && m.z.x * (m.w.z * m.x.w * m.y.y) == m.w.z * m.x.w * m.y.y * m.z.x
        && m.z.x * (m.w.z * m.x.y * m.y.w) == m.w.z * m.x.y * m.y.w * m.z.x
    ) by (nonlinear_arith);
    assert((m.y.y * m.z.z - m.y.z * m.z.y) * (m.x.w) == m.y.y * m.z.z * (m.x.w) - (m.y.z * m.z.y) * (m.x.w)
        && (m.y.y * m.z.z) * m.x.w == m.x.w * m.y.y * m.z.z
        && (m.y.z * m.z.y) * m.x.w == m.x.w * m.y.z * m.z.y
    ) by (nonlinear_arith);
    assert(((0 - m.x.y * m.z.z) + m.x.z * m.z.y) * (m.y.w) == (0 - m.x.y * m.z.z) * (m.y.w) + (m.x.z * m.z.y) * (m.y.w)
        && ((0 - m.x.y * m.z.z)) * (m.y.w) == (0 - m.x.y * m.y.w * m.z.z)
        && (m.x.z * m.z.y) * m.y.w == m.x.z * m.y.w * m.z.y
    ) by (nonlinear_arith);
    assert((m.x.y * m.y.z - m.x.z * m.y.y) * (m.z.w) == m.x.y * m.y.z * (m.z.w) - (m.x.z * m.y.y) * (m.z.w)
        && (m.w.x) * (g94 + m.x.z * m.y.y * m.z.w) == (m.w.x) * (g94) + (m.w.x) * (m.x.z * m.y.y * m.z.w)
    ) by (nonlinear_arith);
    assert((m.w.x) * (g93 - m.x.z * m.y.w * m.z.y) == (m.w.x) * (g93) - (m.w.x) * (m.x.z * m.y.w * m.z.y)
        && (m.w.x) * (g92 - m.x.y * m.y.z * m.z.w) == (m.w.x) * (g92) - (m.w.x) * (m.x.y * m.y.z * m.z.w)
    ) by (nonlinear_arith);
    assert((m.w.x) * (g91 + m.x.y * m.y.w * m.z.z) == (m.w.x) * (g91) + (m.w.x) * (m.x.y * m.y.w * m.z.z)
        && (m.w.x) * ((0 - m.x.w * m.y.y * m.z.z) + m.x.w * m.y.z * m.z.y) == (m.w.x) * ((0 - m.x.w * m.y.y * m.z.z)) + (m.w.x) * (m.x.w * m.y.z * m.z.y)
    ) by (nonlinear_arith);
    assert((m.w.x) * ((0 - m.x.w * m.y.y * m.z.z)) == (0 - m.w.x * m.x.w * m.y.y * m.z.z)
        && m.w.x * (m.x.w * m.y.z * m.z.y) == m.w.x * m.x.w * m.y.z * m.z.y
        && m.w.x * (m.x.y * m.y.w * m.z.z) == m.w.x * m.x.y * m.y.w * m.z.z
    ) by (nonlinear_arith);
    assert(m.w.x * (m.x.y * m.y.z * m.z.w) == m.w.x * m.x.y * m.y.z * m.z.w
        && m.w.x * (m.x.z * m.y.w * m.z.y) == m.w.x * m.x.z * m.y.w * m.z.y
        && m.w.x * (m.x.z * m.y.y * m.z.w) == m.w.x * m.x.z * m.y.y * m.z.w
    ) by (nonlinear_arith);
    assert((m.x.y) * (g11 - m.w.z * m.y.y * m.z.w) == (m.x.y) * (g11) - (m.x.y) * (m.w.z * m.y.y * m.z.w)
        && (m.x.y) * (g10 + m.w.z * m.y.w * m.z.y) == (m.x.y) * (g10) + (m.x.y) * (m.w.z * m.y.w * m.z.y)
    ) by (nonlinear_arith);
    assert((m.x.y) * (g9 + m.w.y * m.y.z * m.z.w) == (m.x.y) * (g9) + (m.x.y) * (m.w.y * m.y.z * m.z.w)
        && (m.x.y) * (g8 - m.w.y * m.y.w * m.z.z) == (m.x.y) * (g8) - (m.x.y) * (m.w.y * m.y.w * m.z.z)
    ) by (nonlinear_arith);
    assert((m.x.y) * (m.w.w * m.y.y * m.z.z - m.w.w * m.y.z * m.z.y) == (m.x.y) * (m.w.w * m.y.y * m.z.z) - (m.x.y) * (m.w.w * m.y.z * m.z.y)
        && m.x.y * (m.w.w * m.y.y * m.z.z) == m.w.w * m.x.y * m.y.y * m.z.z
    ) by (nonlinear_arith);
    assert(m.x.y * (m.w.w * m.y.z * m.z.y) == m.w.w * m.x.y * m.y.z * m.z.y
        && m.x.y * (m.w.y * m.y.w * m.z.z) == m.w.y * m.x.y * m.y.w * m.z.z
        && m.x.y * (m.w.y * m.y.z * m.z.w) == m.w.y * m.x.y * m.y.z * m.z.w
    ) by (nonlinear_arith);
    assert(m.x.y * (m.w.z * m.y.w * m.z.y) == m.w.z * m.x.y * m.y.w * m.z.y
        && m.x.y * (m.w.z * m.y.y * m.z.w) == m.w.z * m.x.y * m.y.y * m.z.w
    ) by (nonlinear_arith);
    assert((m.y.y) * (g33 + m.w.z * m.x.y * m.z.w) == (m.y.y) * (g33) + (m.y.y) * (m.w.z * m.x.y * m.z.w)
        && (m.y.y) * (g32 - m.w.z * m.x.w * m.z.y) == (m.y.y) * (g32) - (m.y.y) * (m.w.z * m.x.w * m.z.y)
    ) by (nonlinear_arith);
    assert((m.y.y) * (g31 - m.w.y * m.x.z * m.z.w) == (m.y.y) * (g31) - (m.y.y) * (m.w.y * m.x.z * m.z.w)
        && (m.y.y) * (g30 + m.w.y * m.x.w * m.z.z) == (m.y.y) * (g30) + (m.y.y) * (m.w.y * m.x.w * m.z.z)
    ) by (nonlinear_arith);
    assert((m.y.y) * ((0 - m.w.w * m.x.y * m.z.z) + m.w.w * m.x.z * m.z.y) == (m.y.y) * ((0 - m.w.w * m.x.y * m.z.z)) + (m.y.y) * (m.w.w * m.x.z * m.z.y)
        && (m.y.y) * ((0 - m.w.w * m.x.y * m.z.z)) == (0 - m.w.w * m.x.y * m.y.y * m.z.z)
    ) by (nonlinear_arith);
    assert(m.y.y * (m.w.w * m.x.z * m.z.y) == m.w.w * m.x.z * m.y.y * m.z.y
        && m.y.y * (m.w.y * m.x.w * m.z.z) == m.w.y * m.x.w * m.y.y * m.z.z
        && m.y.y * (m.w.y * m.x.z * m.z.w) == m.w.y * m.x.z * m.y.y * m.z.w
    ) by (nonlinear_arith);
    assert(m.y.y * (m.w.z * m.x.w * m.z.y) == m.w.z * m.x.w * m.y.y * m.z.y
        && m.y.y * (m.w.z * m.x.y * m.z.w) == m.w.z * m.x.y * m.y.y * m.z.w
    ) by (nonlinear_arith);
    assert((m.z.y) * (g60 - m.w.z * m.x.y * m.y.w) == (m.z.y) * (g60) - (m.z.y) * (m.w.z * m.x.y * m.y.w)
        && (m.z.y) * (g59 + m.w.z * m.x.w * m.y.y) == (m.z.y) * (g59) + (m.z.y) * (m.w.z * m.x.w * m.y.y)
    ) by (nonlinear_arith);
    assert((m.z.y) * (g58 + m.w.y * m.x.z * m.y.w) == (m.z.y) * (g58) + (m.z.y) * (m.w.y * m.x.z * m.y.w)
        && (m.z.y) * (g57 - m.w.y * m.x.w * m.y.z) == (m.z.y) * (g57) - (m.z.y) * (m.w.y * m.x.w * m.y.z)
    ) by (nonlinear_arith);
    assert((m.z.y) * (m.w.w * m.x.y * m.y.z - m.w.w * m.x.z * m.y.y) == (m.z.y) * (m.w.w * m.x.y * m.y.z) - (m.z.y) * (m.w.w * m.x.z * m.y.y)
        && m.z.y * (m.w.w * m.x.y * m.y.z) == m.w.w * m.x.y * m.y.z * m.z.y
    ) by (nonlinear_arith);
    assert(m.z.y * (m.w.w * m.x.z * m.y.y) == m.w.w * m.x.z * m.y.y * m.z.y
        && m.z.y * (m.w.y * m.x.w * m.y.z) == m.w.y * m.x.w * m.y.z * m.z.y
        && m.z.y * (m.w.y * m.x.z * m.y.w) == m.w.y * m.x.z * m.y.w * m.z.y
    ) by (nonlinear_arith);
    assert(m.z.y * (m.w.z * m.x.w * m.y.y) == m.w.z * m.x.w * m.y.y * m.z.y
        && m.z.y * (m.w.z * m.x.y * m.y.w) == m.w.z * m.x.y * m.y.w * m.z.y
    ) by (nonlinear_arith);
    assert((m.w.y) * (g94 + m.x.z * m.y.y * m.z.w) == (m.w.y) * (g94) + (m.w.y) * (m.x.z * m.y.y * m.z.w)
        && (m.w.y) * (g93 - m.x.z * m.y.w * m.z.y) == (m.w.y) * (g93) - (m.w.y) * (m.x.z * m.y.w * m.z.y)
    ) by (nonlinear_arith);
    assert((m.w.y) * (g92 - m.x.y * m.y.z * m.z.w) == (m.w.y) * (g92) - (m.w.y) * (m.x.y * m.y.z * m.z.w)
        && (m.w.y) * (g91 + m.x.y * m.y.w * m.z.z) == (m.w.y) * (g91) + (m.w.y) * (m.x.y * m.y.w * m.z.z)
    ) by (nonlinear_arith);
    assert((m.w.y) * ((0 - m.x.w * m.y.y * m.z.z) + m.x.w * m.y.z * m.z.y) == (m.w.y) * ((0 - m.x.w * m.y.y * m.z.z)) + (m.w.y) * (m.x.w * m.y.z * m.z.y)
        && (m.w.y) * ((0 - m.x.w * m.y.y * m.z.z)) == (0 - m.w.y * m.x.w * m.y.y * m.z.z)
    ) by (nonlinear_arith);
    assert(m.w.y * (m.x.w * m.y.z * m.z.y) == m.w.y * m.x.w * m.y.z * m.z.y
        && m.w.y * (m.x.y * m.y.w * m.z.z) == m.w.y * m.x.y * m.y.w * m.z.z
        && m.w.y * (m.x.y * m.y.z * m.z.w) == m.w.y * m.x.y * m.y.z * m.z.w
    ) by (nonlinear_arith);
    assert(m.w.y * (m.x.z * m.y.w * m.z.y) == m.w.y * m.x.z * m.y.w * m.z.y
        && m.w.y * (m.x.z * m.y.y * m.z.w) == m.w.y * m.x.z * m.y.y * m.z.w
    ) by (nonlinear_arith);
    assert((m.x.z) * (g11 - m.w.z * m.y.y * m.z.w) == (m.x.z) * (g11) - (m.x.z) * (m.w.z * m.y.y * m.z.w)
        && (m.x.z) * (g10 + m.w.z * m.y.w * m.z.y) == (m.x.z) * (g10) + (m.x.z) * (m.w.z * m.y.w * m.z.y)
    ) by (nonlinear_arith);
    assert((m.x.z) * (g9 + m.w.y * m.y.z * m.z.w) == (m.x.z) * (g9) + (m.x.z) * (m.w.y * m.y.z * m.z.w)
        && (m.x.z) * (g8 - m.w.y * m.y.w * m.z.z) == (m.x.z) * (g8) - (m.x.z) * (m.w.y * m.y.w * m.z.z)
    ) by (nonlinear_arith);
    assert((m.x.z) * (m.w.w * m.y.y * m.z.z - m.w.w * m.y.z * m.z.y) == (m.x.z) * (m.w.w * m.y.y * m.z.z) - (m.x.z) * (m.w.w * m.y.z * m.z.y)
        && m.x.z * (m.w.w * m.y.y * m.z.z) == m.w.w * m.x.z * m.y.y * m.z.z
    ) by (nonlinear_arith);
    assert(m.x.z * (m.w.w * m.y.z * m.z.y) == m.w.w * m.x.z * m.y.z * m.z.y
        && m.x.z * (m.w.y * m.y.w * m.z.z) == m.w.y * m.x.z * m.y.w * m.z.z
        && m.x.z * (m.w.y * m.y.z * m.z.w) == m.w.y * m.x.z * m.y.z * m.z.w
    ) by (nonlinear_arith);
    assert(m.x.z * (m.w.z * m.y.w * m.z.y) == m.w.z * m.x.z * m.y.w * m.z.y
        && m.x.z * (m.w.z * m.y.y * m.z.w) == m.w.z * m.x.z * m.y.y * m.z.w
    ) by (nonlinear_arith);
    assert((m.y.z) * (g33 + m.w.z * m.x.y * m.z.w) == (m.y.z) * (g33) + (m.y.z) * (m.w.z * m.x.y * m.z.w)
        && (m.y.z) * (g32 - m.w.z * m.x.w * m.z.y) == (m.y.z) * (g32) - (m.y.z) * (m.w.z * m.x.w * m.z.y)
    ) by (nonlinear_arith);
    assert((m.y.z) * (g31 - m.w.y * m.x.z * m.z.w) == (m.y.z) * (g31) - (m.y.z) * (m.w.y * m.x.z * m.z.w)
        && (m.y.z) * (g30 + m.w.y * m.x.w * m.z.z) == (m.y.z) * (g30) + (m.y.z) * (m.w.y * m.x.w * m.z.z)
    ) by (nonlinear_arith);
    assert((m.y.z) * ((0 - m.w.w * m.x.y * m.z.z) + m.w.w * m.x.z * m.z.y) == (m.y.z) * ((0 - m.w.w * m.x.y * m.z.z)) + (m.y.z) * (m.w.w * m.x.z * m.z.y)
        && (m.y.z) * ((0 - m.w.w * m.x.y * m.z.z)) == (0 - m.w.w * m.x.y * m.y.z * m.z.z)
    ) by (nonlinear_arith);
    assert(m.y.z * (m.w.w * m.x.z * m.z.y) == m.w.w * m.x.z * m.y.z * m.z.y
        && m.y.z * (m.w.y * m.x.w * m.z.z) == m.w.y * m.x.w * m.y.z * m.z.z
        && m.y.z * (m.w.y * m.x.z * m.z.w) == m.w.y * m.x.z * m.y.z * m.z.w
    ) by (nonlinear_arith);
    assert(m.y.z * (m.w.z * m.x.w * m.z.y) == m.w.z * m.x.w * m.y.z * m.z.y
        && m.y.z * (m.w.z * m.x.y * m.z.w) == m.w.z * m.x.y * m.y.z * m.z.w
    ) by (nonlinear_arith);
    assert((m.z.z) * (g60 - m.w.z * m.x.y * m.y.w) == (m.z.z) * (g60) - (m.z.z) * (m.w.z * m.x.y * m.y.w)
        && (m.z.z) * (g59 + m.w.z * m.x.w * m.y.y) == (m.z.z) * (g59) + (m.z.z) * (m.w.z * m.x.w * m.y.y)
    ) by (nonlinear_arith);
    assert((m.z.z) * (g58 + m.w.y * m.x.z * m.y.w) == (m.z.z) * (g58) + (m.z.z) * (m.w.y * m.x.z * m.y.w)
        && (m.z.z) * (g57 - m.w.y * m.x.w * m.y.z) == (m.z.z) * (g57) - (m.z.z) * (m.w.y * m.x.w * m.y.z)
    ) by (nonlinear_arith);
    assert((m.z.z) * (m.w.w * m.x.y * m.y.z - m.w.w * m.x.z * m.y.y) == (m.z.z) * (m.w.w * m.x.y * m.y.z) - (m.z.z) * (m.w.w * m.x.z * m.y.y)
        && m.z.z * (m.w.w * m.x.y * m.y.z) == m.w.w * m.x.y * m.y.z * m.z.z
    ) by (nonlinear_arith);
    assert(m.z.z * (m.w.w * m.x.z * m.y.y) == m.w.w * m.x.z * m.y.y * m.z.z
        && m.z.z * (m.w.y * m.x.w * m.y.z) == m.w.y * m.x.w * m.y.z * m.z.z
        && m.z.z * (m.w.y * m.x.z * m.y.w) == m.w.y * m.x.z * m.y.w * m.z.z
    ) by (nonlinear_arith);
    assert(m.z.z * (m.w.z * m.x.w * m.y.y) == m.w.z * m.x.w * m.y.y * m.z.z
        && m.z.z * (m.w.z * m.x.y * m.y.w) == m.w.z * m.x.y * m.y.w * m.z.z
    ) by (nonlinear_arith);
    assert((m.w.z) * (g94 + m.x.z * m.y.y * m.z.w) == (m.w.z) * (g94) + (m.w.z) * (m.x.z * m.y.y * m.z.w)
        && (m.w.z) * (g93 - m.x.z * m.y.w * m.z.y) == (m.w.z) * (g93) - (m.w.z) * (m.x.z * m.y.w * m.z.y)
    ) by (nonlinear_arith);
    assert((m.w.z) * (g92 - m.x.y * m.y.z * m.z.w) == (m.w.z) * (g92) - (m.w.z) * (m.x.y * m.y.z * m.z.w)
        && (m.w.z) * (g91 + m.x.y * m.y.w * m.z.z) == (m.w.z) * (g91) + (m.w.z) * (m.x.y * m.y.w * m.z.z)
    ) by (nonlinear_arith);
    assert((m.w.z) * ((0 - m.x.w * m.y.y * m.z.z) + m.x.w * m.y.z * m.z.y) == (m.w.z) * ((0 - m.x.w * m.y.y * m.z.z)) + (m.w.z) * (m.x.w * m.y.z * m.z.y)
        && (m.w.z) * ((0 - m.x.w * m.y.y * m.z.z)) == (0 - m.w.z * m.x.w * m.y.y * m.z.z)
    ) by (nonlinear_arith);
    assert(m.w.z * (m.x.w * m.y.z * m.z.y) == m.w.z * m.x.w * m.y.z * m.z.y
        && m.w.z * (m.x.y * m.y.w * m.z.z) == m.w.z * m.x.y * m.y.w * m.z.z
        && m.w.z * (m.x.y * m.y.z * m.z.w) == m.w.z * m.x.y * m.y.z * m.z.w
    ) by (nonlinear_arith);
    assert(m.w.z * (m.x.z * m.y.w * m.z.y) == m.w.z * m.x.z * m.y.w * m.z.y
        && m.w.z * (m.x.z * m.y.y * m.z.w) == m.w.z * m.x.z * m.y.y * m.z.w
    ) by (nonlinear_arith);
    assert((m.x.w) * (g11 - m.w.z * m.y.y * m.z.w) == (m.x.w) * (g11) - (m.x.w) * (m.w.z * m.y.y * m.z.w)
        && (m.x.w) * (g10 + m.w.z * m.y.w * m.z.y) == (m.x.w) * (g10) + (m.x.w) * (m.w.z * m.y.w * m.z.y)
    ) by (nonlinear_arith);
    assert((m.x.w) * (g9 + m.w.y * m.y.z * m.z.w) == (m.x.w) * (g9) + (m.x.w) * (m.w.y * m.y.z * m.z.w)
        && (m.x.w) * (g8 - m.w.y * m.y.w * m.z.z) == (m.x.w) * (g8) - (m.x.w) * (m.w.y * m.y.w * m.z.z)
    ) by (nonlinear_arith);
    assert((m.x.w) * (m.w.w * m.y.y * m.z.z - m.w.w * m.y.z * m.z.y) == (m.x.w) * (m.w.w * m.y.y * m.z.z) - (m.x.w) * (m.w.w * m.y.z * m.z.y)
        && m.x.w * (m.w.w * m.y.y * m.z.z) == m.w.w * m.x.w * m.y.y * m.z.z
    ) by (nonlinear_arith);
    assert(m.x.w * (m.w.w * m.y.z * m.z.y) == m.w.w * m.x.w * m.y.z * m.z.y
        && m.x.w * (m.w.y * m.y.w * m.z.z) == m.w.y * m.x.w * m.y.w * m.z.z
        && m.x.w * (m.w.y * m.y.z * m.z.w) == m.w.y * m.x.w * m.y.z * m.z.w
    ) by (nonlinear_arith);
    assert(m.x.w * (m.w.z * m.y.w * m.z.y) == m.w.z * m.x.w * m.y.w * m.z.y
        && m.x.w * (m.w.z * m.y.y * m.z.w) == m.w.z * m.x.w * m.y.y * m.z.w
    ) by (nonlinear_arith);
    assert((m.y.w) * (g33 + m.w.z * m.x.y * m.z.w) == (m.y.w) * (g33) + (m.y.w) * (m.w.z * m.x.y * m.z.w)
        && (m.y.w) * (g32 - m.w.z * m.x.w * m.z.y) == (m.y.w) * (g32) - (m.y.w) * (m.w.z * m.x.w * m.z.y)
    ) by (nonlinear_arith);
    assert((m.y.w) * (g31 - m.w.y * m.x.z * m.z.w) == (m.y.w) * (g31) - (m.y.w) * (m.w.y * m.x.z * m.z.w)
        && (m.y.w) * (g30 + m.w.y * m.x.w * m.z.z) == (m.y.w) * (g30) + (m.y.w) * (m.w.y * m.x.w * m.z.z)
    ) by (nonlinear_arith);
    assert((m.y.w) * ((0 - m.w.w * m.x.y * m.z.z) + m.w.w * m.x.z * m.z.y) == (m.y.w) * ((0 - m.w.w * m.x.y * m.z.z)) + (m.y.w) * (m.w.w * m.x.z * m.z.y)
        && (m.y.w) * ((0 - m.w.w * m.x.y * m.z.z)) == (0 - m.w.w * m.x.y * m.y.w * m.z.z)
    ) by (nonlinear_arith);
    assert(m.y.w * (m.w.w * m.x.z * m.z.y) == m.w.w * m.x.z * m.y.w * m.z.y
        && m.y.w * (m.w.y * m.x.w * m.z.z) == m.w.y * m.x.w * m.y.w * m.z.z
        && m.y.w * (m.w.y * m.x.z * m.z.w) == m.w.y * m.x.z * m.y.w * m.z.w
    ) by (nonlinear_arith);
    assert(m.y.w * (m.w.z * m.x.w * m.z.y) == m.w.z * m.x.w * m.y.w * m.z.y
        && m.y.w * (m.w.z * m.x.y * m.z.w) == m.w.z * m.x.y * m.y.w * m.z.w
    ) by (nonlinear_arith);
    assert((m.z.w) * (g60 - m.w.z * m.x.y * m.y.w) == (m.z.w) * (g60) - (m.z.w) * (m.w.z * m.x.y * m.y.w)
        && (m.z.w) * (g59 + m.w.z * m.x.w * m.y.y) == (m.z.w) * (g59) + (m.z.w) * (m.w.z * m.x.w * m.y.y)
    ) by (nonlinear_arith);
    assert((m.z.w) * (g58 + m.w.y * m.x.z * m.y.w) == (m.z.w) * (g58) + (m.z.w) * (m.w.y * m.x.z * m.y.w)
        && (m.z.w) * (g57 - m.w.y * m.x.w * m.y.z) == (m.z.w) * (g57) - (m.z.w) * (m.w.y * m.x.w * m.y.z)
    ) by (nonlinear_arith);
    assert((m.z.w) * (m.w.w * m.x.y * m.y.z - m.w.w * m.x.z * m.y.y) == (m.z.w) * (m.w.w * m.x.y * m.y.z) - (m.z.w) * (m.w.w * m.x.z * m.y.y)
        && m.z.w * (m.w.w * m.x.y * m.y.z) == m.w.w * m.x.y * m.y.z * m.z.w
    ) by (nonlinear_arith);
    assert(m.z.w * (m.w.w * m.x.z * m.y.y) == m.w.w * m.x.z * m.y.y * m.z.w
        && m.z.w * (m.w.y * m.x.w * m.y.z) == m.w.y * m.x.w * m.y.z * m.z.w
        && m.z.w * (m.w.y * m.x.z * m.y.w) == m.w.y * m.x.z * m.y.w * m.z.w
    ) by (nonlinear_arith);
    assert(m.z.w * (m.w.z * m.x.w * m.y.y) == m.w.z * m.x.w * m.y.y * m.z.w
        && m.z.w * (m.w.z * m.x.y * m.y.w) == m.w.z * m.x.y * m.y.w * m.z.w
    ) by (nonlinear_arith);
    assert((m.w.w) * (g94 + m.x.z * m.y.y * m.z.w) == (m.w.w) * (g94) + (m.w.w) * (m.x.z * m.y.y * m.z.w)
        && (m.w.w) * (g93 - m.x.z * m.y.w * m.z.y) == (m.w.w) * (g93) - (m.w.w) * (m.x.z * m.y.w * m.z.y)
    ) by (nonlinear_arith);
    assert((m.w.w) * (g92 - m.x.y * m.y.z * m.z.w) == (m.w.w) * (g92) - (m.w.w) * (m.x.y * m.y.z * m.z.w)
        && (m.w.w) * (g91 + m.x.y * m.y.w * m.z.z) == (m.w.w) * (g91) + (m.w.w) * (m.x.y * m.y.w * m.z.z)
    ) by (nonlinear_arith);
    assert((m.w.w) * ((0 - m.x.w * m.y.y * m.z.z) + m.x.w * m.y.z * m.z.y) == (m.w.w) * ((0 - m.x.w * m.y.y * m.z.z)) + (m.w.w) * (m.x.w * m.y.z * m.z.y)
        && (m.w.w) * ((0 - m.x.w * m.y.y * m.z.z)) == (0 - m.w.w * m.x.w * m.y.y * m.z.z)
    ) by (nonlinear_arith);
    assert(m.w.w * (m.x.w * m.y.z * m.z.y) == m.w.w * m.x.w * m.y.z * m.z.y
        && m.w.w * (m.x.y * m.y.w * m.z.z) == m.w.w * m.x.y * m.y.w * m.z.z
        && m.w.w * (m.x.y * m.y.z * m.z.w) == m.w.w * m.x.y * m.y.z * m.z.w
    ) by (nonlinear_arith);
    assert(m.w.w * (m.x.z * m.y.w * m.z.y) == m.w.w * m.x.z * m.y.w * m.z.y
        && m.w.w * (m.x.z * m.y.y * m.z.w) == m.w.w * m.x.z * m.y.y * m.z.w
    ) by (nonlinear_arith);
    assert((m.y.x) * (g28 - m.w.z * m.x.y * m.z.w) == (m.y.x) * (g28) - (m.y.x) * (m.w.z * m.x.y * m.z.w)
        && (m.y.x) * (g27 + m.w.z * m.x.w * m.z.y) == (m.y.x) * (g27) + (m.y.x) * (m.w.z * m.x.w * m.z.y)
    ) by (nonlinear_arith);
    assert((m.y.x) * (g26 + m.w.y * m.x.z * m.z.w) == (m.y.x) * (g26) + (m.y.x) * (m.w.y * m.x.z * m.z.w)
        && (m.y.x) * (g25 - m.w.y * m.x.w * m.z.z) == (m.y.x) * (g25) - (m.y.x) * (m.w.y * m.x.w * m.z.z)
    ) by (nonlinear_arith);
    assert((m.y.x) * (m.w.w * m.x.y * m.z.z - m.w.w * m.x.z * m.z.y) == (m.y.x) * (m.w.w * m.x.y * m.z.z) - (m.y.x) * (m.w.w * m.x.z * m.z.y)
        && m.y.x * (m.w.w * m.x.y * m.z.z) == m.w.w * m.x.y * m.y.x * m.z.z
    ) by (nonlinear_arith);
    assert((m.w.x) * (g89 - m.x.z * m.y.y * m.z.w) == (m.w.x) * (g89) - (m.w.x) * (m.x.z * m.y.y * m.z.w)
        && (m.w.x) * (g88 + m.x.z * m.y.w * m.z.y) == (m.w.x) * (g88) + (m.w.x) * (m.x.z * m.y.w * m.z.y)
    ) by (nonlinear_arith);
    assert((m.w.x) * (g85 + m.x.y * m.y.z * m.z.w) == (m.w.x) * (g85) + (m.w.x) * (m.x.y * m.y.z * m.z.w)
        && (m.w.x) * (g82 - m.x.y * m.y.w * m.z.z) == (m.w.x) * (g82) - (m.w.x) * (m.x.y * m.y.w * m.z.z)
    ) by (nonlinear_arith);
    assert((m.w.x) * (m.x.w * m.y.y * m.z.z - m.x.w * m.y.z * m.z.y) == (m.w.x) * (m.x.w * m.y.y * m.z.z) - (m.w.x) * (m.x.w * m.y.z * m.z.y)
        && m.w.x * (m.x.w * m.y.y * m.z.z) == m.w.x * m.x.w * m.y.y * m.z.z
    ) by (nonlinear_arith);
    assert((m.z.y) * (m.w.z) == m.w.z * m.z.y);
    assert((m.w.y) * (m.z.z) == m.w.y * m.z.z);
    assert((m.w.z * m.z.y) - (m.w.y * m.z.z) == g0);
    assert((g0) * (m.y.w) == g1);
    assert((g0) * (m.y.w) == g1);
    assert((m.w.y) * (m.y.z) == m.w.y * m.y.z);
    assert((m.y.y) * (m.w.z) == m.w.z * m.y.y);
    assert((m.w.y * m.y.z) - (m.w.z * m.y.y) == g2);
    assert((g2) * (m.z.w) == g3);
    assert((g2) * (m.z.w) == g3);
    assert((g1) + (g3) == g6);
    assert((m.y.y) * (m.z.z) == m.y.y * m.z.z);
    assert((m.z.y) * (m.y.z) == m.y.z * m.z.y);
    assert((m.y.y * m.z.z) - (m.y.z * m.z.y) == g7);
    assert((g7) * (m.w.w) == g8);
    assert((g7) * (m.w.w) == g8);
    assert((g6) + (g8) == g12);
    assert((m.x.x) * (g8) == g13);
    assert((m.x.x) * (g9) == g14);
    assert((m.x.x) * (g10) == g15);
    assert((m.x.x) * (g11) == g16);
    assert((m.x.x) * (g12) == g17);
    assert((m.x.x) * (g12) == g17);
    assert((m.z.y) * (m.w.z) == m.w.z * m.z.y);
    assert((m.w.y) * (m.z.z) == m.w.y * m.z.z);
    assert((m.w.z * m.z.y) - (m.w.y * m.z.z) == g0);
    assert((g0) * (m.x.w) == g18);
    assert((g0) * (m.x.w) == g18);
    assert((m.w.y) * (m.x.z) == m.w.y * m.x.z);
    assert((m.x.y) * (m.w.z) == m.w.z * m.x.y);
    assert((m.w.y * m.x.z) - (m.w.z * m.x.y) == g19);
    assert((g19) * (m.z.w) == g20);
    assert((g19) * (m.z.w) == g20);
    assert((g18) + (g20) == g23);
    assert((m.x.y) * (m.z.z) == m.x.y * m.z.z);
    assert((m.z.y) * (m.x.z) == m.x.z * m.z.y);
    assert((m.x.y * m.z.z) - (m.x.z * m.z.y) == g24);
    assert((g24) * (m.w.w) == g25);
    assert((g24) * (m.w.w) == g25);
    assert((g23) + (g25) == g29);
    assert(-(g29) == g34);
    assert((m.y.x) * (g30) == g35);
    assert((m.y.x) * (g31) == g36);
    assert((m.y.x) * (g32) == g37);
    assert((m.y.x) * (g33) == g38);
    assert((m.y.x) * (g34) == g39);
    assert((m.y.x) * (g34) == g39);
    assert((g17) + (g39) == g49);
    assert((m.y.y) * (m.w.z) == m.w.z * m.y.y);
    assert((m.w.y) * (m.y.z) == m.w.y * m.y.z);
    assert((m.w.z * m.y.y) - (m.w.y * m.y.z) == g50);
    assert((g50) * (m.x.w) == g51);
    assert((g50) * (m.x.w) == g51);
    assert((m.w.y) * (m.x.z) == m.w.y * m.x.z);
    assert((m.x.y) * (m.w.z) == m.w.z * m.x.y);
    assert((m.w.y * m.x.z) - (m.w.z * m.x.y) == g19);
    assert((g19) * (m.y.w) == g52);
    assert((g19) * (m.y.w) == g52);
    assert((g51) + (g52) == g55);
    assert((m.x.y) * (m.y.z) == m.x.y * m.y.z);
    assert((m.y.y) * (m.x.z) == m.x.z * m.y.y);
    assert((m.x.y * m.y.z) - (m.x.z * m.y.y) == g56);
    assert((g56) * (m.w.w) == g57);
    assert((g56) * (m.w.w) == g57);
    assert((g55) + (g57) == g61);
    assert((m.z.x) * (g57) == g62);
    assert((m.z.x) * (g58) == g63);
    assert((m.z.x) * (g59) == g64);
    assert((m.z.x) * (g60) == g65);
    assert((m.z.x) * (g61) == g66);
    assert((m.z.x) * (g61) == g66);
    assert((g49) + (g66) == g81);
    assert((m.y.y) * (m.z.z) == m.y.y * m.z.z);
    assert((m.z.y) * (m.y.z) == m.y.z * m.z.y);
    assert((m.y.y * m.z.z) - (m.y.z * m.z.y) == g7);
    assert((g7) * (m.x.w) == g82);
    assert((g7) * (m.x.w) == g82);
    assert((m.z.y) * (m.x.z) == m.x.z * m.z.y);
    assert((m.x.y) * (m.z.z) == m.x.y * m.z.z);
    assert((m.x.z * m.z.y) - (m.x.y * m.z.z) == g83);
    assert((g83) * (m.y.w) == g84);
    assert((g83) * (m.y.w) == g84);
    assert((g82) + (g84) == g86);
    assert((m.x.y) * (m.y.z) == m.x.y * m.y.z);
    assert((m.y.y) * (m.x.z) == m.x.z * m.y.y);
    assert((m.x.y * m.y.z) - (m.x.z * m.y.y) == g56);
    assert((g56) * (m.z.w) == g87);
    assert((g56) * (m.z.w) == g87);
    assert((g86) + (g87) == g90);
    assert(-(g90) == g95);
    assert((m.w.x) * (g91) == g96);
    assert((m.w.x) * (g92) == g97);
    assert((m.w.x) * (g93) == g98);
    assert((m.w.x) * (g94) == g99);
    assert((m.w.x) * (g95) == g100);
    assert((m.w.x) * (g95) == g100);
    assert((g81) + (g100) == g118);
    assert((m.z.y) * (m.w.z) == m.w.z * m.z.y);
    assert((m.w.y) * (m.z.z) == m.w.y * m.z.z);
    assert((m.w.z * m.z.y) - (m.w.y * m.z.z) == g0);
    assert((g0) * (m.y.w) == g1);
    assert((m.w.y) * (m.y.z) == m.w.y * m.y.z);
    assert((m.y.y) * (m.w.z) == m.w.z * m.y.y);
    assert((m.w.y * m.y.z) - (m.w.z * m.y.y) == g2);
    assert((g2) * (m.z.w) == g3);
    assert((g1) + (g3) == g6);
    assert((m.y.y) * (m.z.z) == m.y.y * m.z.z);
    assert((m.z.y) * (m.y.z) == m.y.z * m.z.y);
    assert((m.y.y * m.z.z) - (m.y.z * m.z.y) == g7);
    assert((g7) * (m.w.w) == g8);
    assert((g6) + (g8) == g12);
    assert((m.x.y) * (g8) == g119);
    assert((m.x.y) * (g9) == g120);
    assert((m.x.y) * (g10) == g121);
    assert((m.x.y) * (g11) == g122);
    assert((m.x.y) * (g12) == g123);
    assert((m.x.y) * (g12) == g123);
    assert((m.z.y) * (m.w.z) == m.w.z * m.z.y);
    assert((m.w.y) * (m.z.z) == m.w.y * m.z.z);
    assert((m.w.z * m.z.y) - (m.w.y * m.z.z) == g0);
    assert((g0) * (m.x.w) == g18);
    assert((m.w.y) * (m.x.z) == m.w.y * m.x.z);
    assert((m.x.y) * (m.w.z) == m.w.z * m.x.y);
    assert((m.w.y * m.x.z) - (m.w.z * m.x.y) == g19);
    assert((g19) * (m.z.w) == g20);
    assert((g18) + (g20) == g23);
    assert((m.x.y) * (m.z.z) == m.x.y * m.z.z);
    assert((m.z.y) * (m.x.z) == m.x.z * m.z.y);
    assert((m.x.y * m.z.z) - (m.x.z * m.z.y) == g24);
    assert((g24) * (m.w.w) == g25);
    assert((g23) + (g25) == g29);
    assert(-(g29) == g34);
    assert((m.y.y) * (g30) == g124);
    assert((m.y.y) * (g31) == g125);
    assert((m.y.y) * (g32) == g126);
    assert((m.y.y) * (g33) == g127);
    assert((m.y.y) * (g34) == g128);
    assert((m.y.y) * (g34) == g128);
    assert((g123) + (g128) == g135);
    assert((m.y.y) * (m.w.z) == m.w.z * m.y.y);
    assert((m.w.y) * (m.y.z) == m.w.y * m.y.z);
    assert((m.w.z * m.y.y) - (m.w.y * m.y.z) == g50);
    assert((g50) * (m.x.w) == g51);
    assert((m.w.y) * (m.x.z) == m.w.y * m.x.z);
    assert((m.x.y) * (m.w.z) == m.w.z * m.x.y);
    assert((m.w.y * m.x.z) - (m.w.z * m.x.y) == g19);
    assert((g19) * (m.y.w) == g52);
    assert((g51) + (g52) == g55);
    assert((m.x.y) * (m.y.z) == m.x.y * m.y.z);
    assert((m.y.y) * (m.x.z) == m.x.z * m.y.y);
    assert((m.x.y * m.y.z) - (m.x.z * m.y.y) == g56);
    assert((g56) * (m.w.w) == g57);
    assert((g55) + (g57) == g61);
    assert((m.z.y) * (g57) == g136);
    assert((m.z.y) * (g58) == g137);
    assert((m.z.y) * (g59) == g138);
    assert((m.z.y) * (g60) == g139);
    assert((m.z.y) * (g61) == g140);
    assert((m.z.y) * (g61) == g140);
    assert((g135) + (g140) == g145);
    assert((m.y.y) * (m.z.z) == m.y.y * m.z.z);
    assert((m.z.y) * (m.y.z) == m.y.z * m.z.y);
    assert((m.y.y * m.z.z) - (m.y.z * m.z.y) == g7);
    assert((g7) * (m.x.w) == g82);
    assert((m.z.y) * (m.x.z) == m.x.z * m.z.y);
    assert((m.x.y) * (m.z.z) == m.x.y * m.z.z);
    assert((m.x.z * m.z.y) - (m.x.y * m.z.z) == g83);
    assert((g83) * (m.y.w) == g84);
    assert((g82) + (g84) == g86);
    assert((m.x.y) * (m.y.z) == m.x.y * m.y.z);
    assert((m.y.y) * (m.x.z) == m.x.z * m.y.y);
    assert((m.x.y * m.y.z) - (m.x.z * m.y.y) == g56);
    assert((g56) * (m.z.w) == g87);
    assert((g86) + (g87) == g90);
    assert(-(g90) == g95);
    assert((m.w.y) * (g91) == g146);
    assert((m.w.y) * (g92) == g147);
    assert((m.w.y) * (g93) == g148);
    assert((m.w.y) * (g94) == g149);
    assert((m.w.y) * (g95) == g150);
    assert((m.w.y) * (g95) == g150);
    assert((g145) + (g150) == 0);
    assert((m.z.y) * (m.w.z) == m.w.z * m.z.y);
    assert((m.w.y) * (m.z.z) == m.w.y * m.z.z);
    assert((m.w.z * m.z.y) - (m.w.y * m.z.z) == g0);
    assert((g0) * (m.y.w) == g1);
    assert((m.w.y) * (m.y.z) == m.w.y * m.y.z);
    assert((m.y.y) * (m.w.z) == m.w.z * m.y.y);
    assert((m.w.y * m.y.z) - (m.w.z * m.y.y) == g2);
    assert((g2) * (m.z.w) == g3);
    assert((g1) + (g3) == g6);
    assert((m.y.y) * (m.z.z) == m.y.y * m.z.z);
    assert((m.z.y) * (m.y.z) == m.y.z * m.z.y);
    assert((m.y.y * m.z.z) - (m.y.z * m.z.y) == g7);
    assert((g7) * (m.w.w) == g8);
    assert((g6) + (g8) == g12);
    assert((m.x.z) * (g8) == g151);
    assert((m.x.z) * (g9) == g152);
    assert((m.x.z) * (g10) == g153);
    assert((m.x.z) * (g11) == g154);
    assert((m.x.z) * (g12) == g155);
    assert((m.x.z) * (g12) == g155);
    assert((m.z.y) * (m.w.z) == m.w.z * m.z.y);
    assert((m.w.y) * (m.z.z) == m.w.y * m.z.z);
    assert((m.w.z * m.z.y) - (m.w.y * m.z.z) == g0);
    assert((g0) * (m.x.w) == g18);
    assert((m.w.y) * (m.x.z) == m.w.y * m.x.z);
    assert((m.x.y) * (m.w.z) == m.w.z * m.x.y);
    assert((m.w.y * m.x.z) - (m.w.z * m.x.y) == g19);
    assert((g19) * (m.z.w) == g20);
    assert((g18) + (g20) == g23);
    assert((m.x.y) * (m.z.z) == m.x.y * m.z.z);
    assert((m.z.y) * (m.x.z) == m.x.z * m.z.y);
    assert((m.x.y * m.z.z) - (m.x.z * m.z.y) == g24);
    assert((g24) * (m.w.w) == g25);
    assert((g23) + (g25) == g29);
    assert(-(g29) == g34);
    assert((m.y.z) * (g30) == g156);
    assert((m.y.z) * (g31) == g157);
    assert((m.y.z) * (g32) == g158);
    assert((m.y.z) * (g33) == g159);
    assert((m.y.z) * (g34) == g160);
    assert((m.y.z) * (g34) == g160);
    assert((g155) + (g160) == g167);
    assert((m.y.y) * (m.w.z) == m.w.z * m.y.y);
    assert((m.w.y) * (m.y.z) == m.w.y * m.y.z);
    assert((m.w.z * m.y.y) - (m.w.y * m.y.z) == g50);
    assert((g50) * (m.x.w) == g51);
    assert((m.w.y) * (m.x.z) == m.w.y * m.x.z);
    assert((m.x.y) * (m.w.z) == m.w.z * m.x.y);
    assert((m.w.y * m.x.z) - (m.w.z * m.x.y) == g19);
    assert((g19) * (m.y.w) == g52);
    assert((g51) + (g52) == g55);
    assert((m.x.y) * (m.y.z) == m.x.y * m.y.z);
    assert((m.y.y) * (m.x.z) == m.x.z * m.y.y);
    assert((m.x.y * m.y.z) - (m.x.z * m.y.y) == g56);
    assert((g56) * (m.w.w) == g57);
    assert((g55) + (g57) == g61);
    assert((m.z.z) * (g57) == g168);
    assert((m.z.z) * (g58) == g169);
    assert((m.z.z) * (g59) == g170);
    assert((m.z.z) * (g60) == g171);
    assert((m.z.z) * (g61) == g172);
    assert((m.z.z) * (g61) == g172);
    assert((g167) + (g172) == g177);
    assert((m.y.y) * (m.z.z) == m.y.y * m.z.z);
    assert((m.z.y) * (m.y.z) == m.y.z * m.z.y);
    assert((m.y.y * m.z.z) - (m.y.z * m.z.y) == g7);
    assert((g7) * (m.x.w) == g82);
    assert((m.z.y) * (m.x.z) == m.x.z * m.z.y);
    assert((m.x.y) * (m.z.z) == m.x.y * m.z.z);
    assert((m.x.z * m.z.y) - (m.x.y * m.z.z) == g83);
    assert((g83) * (m.y.w) == g84);
    assert((g82) + (g84) == g86);
    assert((m.x.y) * (m.y.z) == m.x.y * m.y.z);
    assert((m.y.y) * (m.x.z) == m.x.z * m.y.y);
    assert((m.x.y * m.y.z) - (m.x.z * m.y.y) == g56);
    assert((g56) * (m.z.w) == g87);
    assert((g86) + (g87) == g90);
    assert(-(g90) == g95);
    assert((m.w.z) * (g91) == g178);
    assert((m.w.z) * (g92) == g179);
    assert((m.w.z) * (g93) == g180);
    assert((m.w.z) * (g94) == g181);
    assert((m.w.z) * (g95) == g182);
    assert((m.w.z) * (g95) == g182);
    assert((g177) + (g182) == 0);
    assert((m.z.y) * (m.w.z) == m.w.z * m.z.y);
    assert((m.w.y) * (m.z.z) == m.w.y * m.z.z);
    assert((m.w.z * m.z.y) - (m.w.y * m.z.z) == g0);
    assert((g0) * (m.y.w) == g1);
    assert((m.w.y) * (m.y.z) == m.w.y * m.y.z);
    assert((m.y.y) * (m.w.z) == m.w.z * m.y.y);
    assert((m.w.y * m.y.z) - (m.w.z * m.y.y) == g2);
    assert((g2) * (m.z.w) == g3);
    assert((g1) + (g3) == g6);
    assert((m.y.y) * (m.z.z) == m.y.y * m.z.z);
    assert((m.z.y) * (m.y.z) == m.y.z * m.z.y);
    assert((m.y.y * m.z.z) - (m.y.z * m.z.y) == g7);
    assert((g7) * (m.w.w) == g8);
    assert((g6) + (g8) == g12);
    assert((m.x.w) * (g8) == g183);
    assert((m.x.w) * (g9) == g184);
    assert((m.x.w) * (g10) == g185);
    assert((m.x.w) * (g11) == g186);
    assert((m.x.w) * (g12) == g187);
    assert((m.x.w) * (g12) == g187);
    assert((m.z.y) * (m.w.z) == m.w.z * m.z.y);
    assert((m.w.y) * (m.z.z) == m.w.y * m.z.z);
    assert((m.w.z * m.z.y) - (m.w.y * m.z.z) == g0);
    assert((g0) * (m.x.w) == g18);
    assert((m.w.y) * (m.x.z) == m.w.y * m.x.z);
    assert((m.x.y) * (m.w.z) == m.w.z * m.x.y);
    assert((m.w.y * m.x.z) - (m.w.z * m.x.y) == g19);
    assert((g19) * (m.z.w) == g20);
    assert((g18) + (g20) == g23);
    assert((m.x.y) * (m.z.z) == m.x.y * m.z.z);
    assert((m.z.y) * (m.x.z) == m.x.z * m.z.y);
    assert((m.x.y * m.z.z) - (m.x.z * m.z.y) == g24);
    assert((g24) * (m.w.w) == g25);
    assert((g23) + (g25) == g29);
    assert(-(g29) == g34);
    assert((m.y.w) * (g30) == g188);
    assert((m.y.w) * (g31) == g189);
    assert((m.y.w) * (g32) == g190);
    assert((m.y.w) * (g33) == g191);
    assert((m.y.w) * (g34) == g192);
    assert((m.y.w) * (g34) == g192);
    assert((g187) + (g192) == g198);
    assert((m.y.y) * (m.w.z) == m.w.z * m.y.y);
    assert((m.w.y) * (m.y.z) == m.w.y * m.y.z);
    assert((m.w.z * m.y.y) - (m.w.y * m.y.z) == g50);
    assert((g50) * (m.x.w) == g51);
    assert((m.w.y) * (m.x.z) == m.w.y * m.x.z);
    assert((m.x.y) * (m.w.z) == m.w.z * m.x.y);
    assert((m.w.y * m.x.z) - (m.w.z * m.x.y) == g19);
    assert((g19) * (m.y.w) == g52);
    assert((g51) + (g52) == g55);
    assert((m.x.y) * (m.y.z) == m.x.y * m.y.z);
    assert((m.y.y) * (m.x.z) == m.x.z * m.y.y);
    assert((m.x.y * m.y.z) - (m.x.z * m.y.y) == g56);
    assert((g56) * (m.w.w) == g57);
    assert((g55) + (g57) == g61);
    assert((m.z.w) * (g57) == g199);
    assert((m.z.w) * (g58) == g200);
    assert((m.z.w) * (g59) == g201);
    assert((m.z.w) * (g60) == g202);
    assert((m.z.w) * (g61) == g203);
    assert((m.z.w) * (g61) == g203);
    assert((g198) + (g203) == g206);
    assert((m.y.y) * (m.z.z) == m.y.y * m.z.z);
    assert((m.z.y) * (m.y.z) == m.y.z * m.z.y);
    assert((m.y.y * m.z.z) - (m.y.z * m.z.y) == g7);
    assert((g7) * (m.x.w) == g82);
    assert((m.z.y) * (m.x.z) == m.x.z * m.z.y);
    assert((m.x.y) * (m.z.z) == m.x.y * m.z.z);
    assert((m.x.z * m.z.y) - (m.x.y * m.z.z) == g83);
    assert((g83) * (m.y.w) == g84);
    assert((g82) + (g84) == g86);
    assert((m.x.y) * (m.y.z) == m.x.y * m.y.z);
    assert((m.y.y) * (m.x.z) == m.x.z * m.y.y);
    assert((m.x.y * m.y.z) - (m.x.z * m.y.y) == g56);
    assert((g56) * (m.z.w) == g87);
    assert((g86) + (g87) == g90);
    assert(-(g90) == g95);
    assert((m.w.w) * (g91) == g207);
    assert((m.w.w) * (g92) == g208);
    assert((m.w.w) * (g93) == g209);
    assert((m.w.w) * (g94) == g210);
    assert((m.w.w) * (g95) == g211);
    assert((m.w.w) * (g95) == g211);
    assert((g206) + (g211) == 0);
    assert((m.z.y) * (m.w.z) == m.w.z * m.z.y);
    assert((m.w.y) * (m.z.z) == m.w.y * m.z.z);
    assert((m.w.z * m.z.y) - (m.w.y * m.z.z) == g0);
    assert((g0) * (m.y.w) == g1);
    assert((m.w.y) * (m.y.z) == m.w.y * m.y.z);
    assert((m.y.y) * (m.w.z) == m.w.z * m.y.y);
    assert((m.w.y * m.y.z) - (m.w.z * m.y.y) == g2);
    assert((g2) * (m.z.w) == g3);
    assert((g1) + (g3) == g6);
    assert((m.y.y) * (m.z.z) == m.y.y * m.z.z);
    assert((m.z.y) * (m.y.z) == m.y.z * m.z.y);
    assert((m.y.y * m.z.z) - (m.y.z * m.z.y) == g7);
    assert((g7) * (m.w.w) == g8);
    assert((g6) + (g8) == g12);
    assert((m.x.x) * (g12) == g17);
    assert((m.z.y) * (m.w.z) == m.w.z * m.z.y);
    assert((m.w.y) * (m.z.z) == m.w.y * m.z.z);
    assert((m.w.z * m.z.y) - (m.w.y * m.z.z) == g0);
    assert((g0) * (m.x.w) == g18);
    assert((m.w.y) * (m.x.z) == m.w.y * m.x.z);
    assert((m.x.y) * (m.w.z) == m.w.z * m.x.y);
    assert((m.w.y * m.x.z) - (m.w.z * m.x.y) == g19);
    assert((g19) * (m.z.w) == g20);
    assert((g18) + (g20) == g23);
    assert((m.x.y) * (m.z.z) == m.x.y * m.z.z);
    assert((m.z.y) * (m.x.z) == m.x.z * m.z.y);
    assert((m.x.y * m.z.z) - (m.x.z * m.z.y) == g24);
    assert((g24) * (m.w.w) == g25);
    assert((g23) + (g25) == g29);
    assert((m.y.x) * (g25) == g212);
    assert((m.y.x) * (g26) == g213);
    assert((m.y.x) * (g27) == g214);
    assert((m.y.x) * (g28) == g215);
    assert((m.y.x) * (g29) == g216);
    assert((m.y.x) * (g29) == g216);
    assert((g17) - (g216) == g49);
    assert((m.y.y) * (m.w.z) == m.w.z * m.y.y);
    assert((m.w.y) * (m.y.z) == m.w.y * m.y.z);
    assert((m.w.z * m.y.y) - (m.w.y * m.y.z) == g50);
    assert((g50) * (m.x.w) == g51);
    assert((m.w.y) * (m.x.z) == m.w.y * m.x.z);
    assert((m.x.y) * (m.w.z) == m.w.z * m.x.y);
    assert((m.w.y * m.x.z) - (m.w.z * m.x.y) == g19);
    assert((g19) * (m.y.w) == g52);
    assert((g51) + (g52) == g55);
    assert((m.x.y) * (m.y.z) == m.x.y * m.y.z);
    assert((m.y.y) * (m.x.z) == m.x.z * m.y.y);
    assert((m.x.y * m.y.z) - (m.x.z * m.y.y) == g56);
    assert((g56) * (m.w.w) == g57);
    assert((g55) + (g57) == g61);
    assert((m.z.x) * (g61) == g66);
    assert((g49) + (g66) == g81);
    assert((m.y.y) * (m.z.z) == m.y.y * m.z.z);
    assert((m.z.y) * (m.y.z) == m.y.z * m.z.y);
    assert((m.y.y * m.z.z) - (m.y.z * m.z.y) == g7);
    assert((g7) * (m.x.w) == g82);
    assert((m.z.y) * (m.x.z) == m.x.z * m.z.y);
    assert((m.x.y) * (m.z.z) == m.x.y * m.z.z);
    assert((m.x.z * m.z.y) - (m.x.y * m.z.z) == g83);
    assert((g83) * (m.y.w) == g84);
    assert((g82) + (g84) == g86);
    assert((m.x.y) * (m.y.z) == m.x.y * m.y.z);
    assert((m.y.y) * (m.x.z) == m.x.z * m.y.y);
    assert((m.x.y * m.y.z) - (m.x.z * m.y.y) == g56);
    assert((g56) * (m.z.w) == g87);
    assert((g86) + (g87) == g90);
    assert((m.w.x) * (g82) == g217);
    assert((m.w.x) * (g85) == g218);
    assert((m.w.x) * (g88) == g219);
    assert((m.w.x) * (g89) == g220);
    assert((m.w.x) * (g90) == g221);
    assert((m.w.x) * (g90) == g221);
    assert((g81) - (g221) == g118);
}

proof fn adj4_col_y(m: M4)
    ensures
        m4_vec_mul(m, m4_adjugate(m).y).x == 0,
        m4_vec_mul(m, m4_adjugate(m).y).y == m4_det(m).n,
        m4_vec_mul(m, m4_adjugate(m).y).z == 0,
        m4_vec_mul(m, m4_adjugate(m).y).w == 0,
{
    let g0: int = (0 - m.w.x * m.z.z) + m.w.z * m.z.x;
    let g1: int = (0 - m.w.x * m.y.w * m.z.z) + m.w.z * m.y.w * m.z.x;
    let g2: int = m.w.x * m.y.z - m.w.z * m.y.x;
    let g3: int = m.w.x * m.y.z * m.z.w - m.w.z * m.y.x * m.z.w;
    let g4: int = (0 - m.w.x * m.y.w * m.z.z) + m.w.x * m.y.z * m.z.w;
    let g5: int = g4 + m.w.z * m.y.w * m.z.x;
    let g6: int = g5 - m.w.z * m.y.x * m.z.w;
    let g7: int = m.y.x * m.z.z - m.y.z * m.z.x;
    let g8: int = m.w.w * m.y.x * m.z.z - m.w.w * m.y.z * m.z.x;
    let g9: int = g8 - m.w.x * m.y.w * m.z.z;
    let g10: int = g9 + m.w.x * m.y.z * m.z.w;
    let g11: int = g10 + m.w.z * m.y.w * m.z.x;
    let g12: int = g11 - m.w.z * m.y.x * m.z.w;
    let g13: int = (0 - m.w.w * m.y.x * m.z.z) + m.w.w * m.y.z * m.z.x;
    let g14: int = g13 + m.w.x * m.y.w * m.z.z;
    let g15: int = g14 - m.w.x * m.y.z * m.z.w;
    let g16: int = g15 - m.w.z * m.y.w * m.z.x;
    let g17: int = g16 + m.w.z * m.y.x * m.z.w;
    let g18: int = (0 - m.w.w * m.x.x * m.y.x * m.z.z) + m.w.w * m.x.x * m.y.z * m.z.x;
    let g19: int = g18 + m.w.x * m.x.x * m.y.w * m.z.z;
    let g20: int = g19 - m.w.x * m.x.x * m.y.z * m.z.w;
    let g21: int = g20 - m.w.z * m.x.x * m.y.w * m.z.x;
    let g22: int = g21 + m.w.z * m.x.x * m.y.x * m.z.w;
    let g23: int = (0 - m.w.x * m.x.w * m.z.z) + m.w.z * m.x.w * m.z.x;
    let g24: int = m.w.x * m.x.z - m.w.z * m.x.x;
    let g25: int = m.w.x * m.x.z * m.z.w - m.w.z * m.x.x * m.z.w;
    let g26: int = (0 - m.w.x * m.x.w * m.z.z) + m.w.x * m.x.z * m.z.w;
    let g27: int = g26 + m.w.z * m.x.w * m.z.x;
    let g28: int = g27 - m.w.z * m.x.x * m.z.w;
    let g29: int = m.x.x * m.z.z - m.x.z * m.z.x;
    let g30: int = m.w.w * m.x.x * m.z.z - m.w.w * m.x.z * m.z.x;
    let g31: int = g30 - m.w.x * m.x.w * m.z.z;
    let g32: int = g31 + m.w.x * m.x.z * m.z.w;
    let g33: int = g32 + m.w.z * m.x.w * m.z.x;
    let g34: int = g33 - m.w.z * m.x.x * m.z.w;
    let g35: int = m.w.w * m.x.x * m.y.x * m.z.z - m.w.w * m.x.z * m.y.x * m.z.x;
    let g36: int = g35 - m.w.x * m.x.w * m.y.x * m.z.z;
    let g37: int = g36 + m.w.x * m.x.z * m.y.x * m.z.w;
    let g38: int = g37 + m.w.z * m.x.w * m.y.x * m.z.x;
    let g39: int = g38 - m.w.z * m.x.x * m.y.x * m.z.w;
    let g40: int = m.w.w * m.x.x * m.y.z * m.z.x - m.w.w * m.x.z * m.y.x * m.z.x;
    let g41: int = g40 - m.w.x * m.x.w * m.y.x * m.z.z;
    let g42: int = g41 + m.w.x * m.x.x * m.y.w * m.z.z;
    let g43: int = g42 - m.w.x * m.x.x * m.y.z * m.z.w;
    let g44: int = g43 + m.w.x * m.x.z * m.y.x * m.z.w;
    let g45: int = g44 + m.w.z * m.x.w * m.y.x * m.z.x;
    let g46: int = g45 - m.w.z * m.x.x * m.y.w * m.z.x;
    let g47: int = (0 - m.w.x * m.y.z) + m.w.z * m.y.x;
    let g48: int = (0 - m.w.x * m.x.w * m.y.z) + m.w.z * m.x.w * m.y.x;
    let g49: int = m.w.x * m.x.z * m.y.w - m.w.z * m.x.x * m.y.w;
    let g50: int = (0 - m.w.x * m.x.w * m.y.z) + m.w.x * m.x.z * m.y.w;
    let g51: int = g50 + m.w.z * m.x.w * m.y.x;
    let g52: int = g51 - m.w.z * m.x.x * m.y.w;
    let g53: int = m.x.x * m.y.z - m.x.z * m.y.x;
    let g54: int = m.w.w * m.x.x * m.y.z - m.w.w * m.x.z * m.y.x;
    let g55: int = g54 - m.w.x * m.x.w * m.y.z;
    let g56: int = g55 + m.w.x * m.x.z * m.y.w;
    let g57: int = g56 + m.w.z * m.x.w * m.y.x;
    let g58: int = g57 - m.w.z * m.x.x * m.y.w;
    let g59: int = (0 - m.w.w * m.x.x * m.y.z) + m.w.w * m.x.z * m.y.x;
    let g60: int = g59 + m.w.x * m.x.w * m.y.z;
    let g61: int = g60 - m.w.x * m.x.z * m.y.w;
    let g62: int = g61 - m.w.z * m.x.w * m.y.x;
    let g63: int = g62 + m.w.z * m.x.x * m.y.w;
    let g64: int = (0 - m.w.w * m.x.x * m.y.z * m.z.x) + m.w.w * m.x.z * m.y.x * m.z.x;
    let g65: int = g64 + m.w.x * m.x.w * m.y.z * m.z.x;
    let g66: int = g65 - m.w.x * m.x.z * m.y.w * m.z.x;
    let g67: int = g66 - m.w.z * m.x.w * m.y.x * m.z.x;
    let g68: int = g67 + m.w.z * m.x.x * m.y.w * m.z.x;
    let g69: int = (0 - m.w.x * m.x.w * m.y.x * m.z.z) + m.w.x * m.x.w * m.y.z * m.z.x;
    let g70: int = g69 + m.w.x * m.x.x * m.y.w * m.z.z;
    let g71: int = g70 - m.w.x * m.x.x * m.y.z * m.z.w;
    let g72: int = g71 - m.w.x * m.x.z * m.y.w * m.z.x;
    let g73: int = g72 + m.w.x * m.x.z * m.y.x * m.z.w;
    let g74: int = m.x.w * m.y.x * m.z.z - m.x.w * m.y.z * m.z.x;
    let g75: int = (0 - m.x.x * m.z.z) + m.x.z * m.z.x;
    let g76: int = (0 - m.x.x * m.y.w * m.z.z) + m.x.z * m.y.w * m.z.x;
    let g77: int = g74 - m.x.x * m.y.w * m.z.z;
    let g78: int = g77 + m.x.z * m.y.w * m.z.x;
    let g79: int = m.x.x * m.y.z * m.z.w - m.x.z * m.y.x * m.z.w;
    let g80: int = g77 + m.x.x * m.y.z * m.z.w;
    let g81: int = g80 + m.x.z * m.y.w * m.z.x;
    let g82: int = g81 - m.x.z * m.y.x * m.z.w;
    let g83: int = m.w.x * m.x.w * m.y.x * m.z.z - m.w.x * m.x.w * m.y.z * m.z.x;
    let g84: int = g83 - m.w.x * m.x.x * m.y.w * m.z.z;
    let g85: int = g84 + m.w.x * m.x.x * m.y.z * m.z.w;
    let g86: int = g85 + m.w.x * m.x.z * m.y.w * m.z.x;
    let g87: int = g86 - m.w.x * m.x.z * m.y.x * m.z.w;
    let g88: int = (0 - m.w.w * m.x.y * m.y.x * m.z.z) + m.w.w * m.x.y * m.y.z * m.z.x;
    let g89: int = g88 + m.w.x * m.x.y * m.y.w * m.z.z;
    let g90: int = g89 - m.w.x * m.x.y * m.y.z * m.z.w;
    let g91: int = g90 - m.w.z * m.x.y * m.y.w * m.z.x;
    let g92: int = g91 + m.w.z * m.x.y * m.y.x * m.z.w;
    let g93: int = m.w.w * m.x.x * m.y.y * m.z.z - m.w.w * m.x.z * m.y.y * m.z.x;
    let g94: int = g93 - m.w.x * m.x.w * m.y.y * m.z.z;
    let g95: int = g94 + m.w.x * m.x.z * m.y.y * m.z.w;
    let g96: int = g95 + m.w.z * m.x.w * m.y.y * m.z.x;
    let g97: int = g96 - m.w.z * m.x.x * m.y.y * m.z.w;
    let g98: int = m.w.w * m.x.x * m.y.y * m.z.z - m.w.w * m.x.y * m.y.x * m.z.z;
    let g99: int = g98 + m.w.w * m.x.y * m.y.z * m.z.x;
    let g100: int = g99 - m.w.w * m.x.z * m.y.y * m.z.x;
    let g101: int = g100 - m.w.x * m.x.w * m.y.y * m.z.z;
    let g102: int = g101 + m.w.x * m.x.y * m.y.w * m.z.z;
    let g103: int = g102 - m.w.x * m.x.y * m.y.z * m.z.w;
    let g104: int = g103 + m.w.x * m.x.z * m.y.y * m.z.w;
    let g105: int = g104 + m.w.z * m.x.w * m.y.y * m.z.x;
    let g106: int = g105 - m.w.z * m.x.x * m.y.y * m.z.w;
    let g107: int = g106 - m.w.z * m.x.y * m.y.w * m.z.x;
    let g108: int = g107 + m.w.z * m.x.y * m.y.x * m.z.w;
    let g109: int = (0 - m.w.w * m.x.x * m.y.z * m.z.y) + m.w.w * m.x.z * m.y.x * m.z.y;
    let g110: int = g109 + m.w.x * m.x.w * m.y.z * m.z.y;
    let g111: int = g110 - m.w.x * m.x.z * m.y.w * m.z.y;
    let g112: int = g111 - m.w.z * m.x.w * m.y.x * m.z.y;
    let g113: int = g112 + m.w.z * m.x.x * m.y.w * m.z.y;
    let g114: int = m.w.w * m.x.x * m.y.y * m.z.z - m.w.w * m.x.x * m.y.z * m.z.y;
    let g115: int = g114 - m.w.w * m.x.y * m.y.x * m.z.z;
    let g116: int = g115 + m.w.w * m.x.y * m.y.z * m.z.x;
    let g117: int = g116 + m.w.w * m.x.z * m.y.x * m.z.y;
    let g118: int = g117 - m.w.w * m.x.z * m.y.y * m.z.x;
    let g119: int = g118 - m.w.x * m.x.w * m.y.y * m.z.z;
    let g120: int = g119 + m.w.x * m.x.w * m.y.z * m.z.y;
    let g121: int = g120 + m.w.x * m.x.y * m.y.w * m.z.z;
    let g122: int = g121 - m.w.x * m.x.y * m.y.z * m.z.w;
    let g123: int = g122 - m.w.x * m.x.z * m.y.w * m.z.y;
    let g124: int = g123 + m.w.x * m.x.z * m.y.y * m.z.w;
    let g125: int = g124 - m.w.z * m.x.w * m.y.x * m.z.y;
    let g126: int = g125 + m.w.z * m.x.w * m.y.y * m.z.x;
    let g127: int = g126 + m.w.z * m.x.x * m.y.w * m.z.y;
    let g128: int = g127 - m.w.z * m.x.x * m.y.y * m.z.w;
    let g129: int = g128 - m.w.z * m.x.y * m.y.w * m.z.x;
    let g130: int = g129 + m.w.z * m.x.y * m.y.x * m.z.w;
    let g131: int = m.w.y * m.x.w * m.y.x * m.z.z - m.w.y * m.x.w * m.y.z * m.z.x;
    let g132: int = g131 - m.w.y * m.x.x * m.y.w * m.z.z;
    let g133: int = g132 + m.w.y * m.x.x * m.y.z * m.z.w;
    let g134: int = g133 + m.w.y * m.x.z * m.y.w * m.z.x;
    let g135: int = g134 - m.w.y * m.x.z * m.y.x * m.z.w;
    let g136: int = g124 + m.w.y * m.x.w * m.y.x * m.z.z;
    let g137: int = g136 - m.w.y * m.x.w * m.y.z * m.z.x;
    let g138: int = g137 - m.w.y * m.x.x * m.y.w * m.z.z;
    let g139: int = g138 + m.w.y * m.x.x * m.y.z * m.z.w;
    let g140: int = g139 + m.w.y * m.x.z * m.y.w * m.z.x;
    let g141: int = g140 - m.w.y * m.x.z * m.y.x * m.z.w;
    let g142: int = g141 - m.w.z * m.x.w * m.y.x * m.z.y;
    let g143: int = g142 + m.w.z * m.x.w * m.y.y * m.z.x;
    let g144: int = g143 + m.w.z * m.x.x * m.y.w * m.z.y;
    let g145: int = g144 - m.w.z * m.x.x * m.y.y * m.z.w;
    let g146: int = g145 - m.w.z * m.x.y * m.y.w * m.z.x;
    let g147: int = g146 + m.w.z * m.x.y * m.y.x * m.z.w;
    let g148: int = (0 - m.w.w * m.x.z * m.y.x * m.z.z) + m.w.w * m.x.z * m.y.z * m.z.x;
    let g149: int = g148 + m.w.x * m.x.z * m.y.w * m.z.z;
    let g150: int = g149 - m.w.x * m.x.z * m.y.z * m.z.w;
    let g151: int = g150 - m.w.z * m.x.z * m.y.w * m.z.x;
    let g152: int = g151 + m.w.z * m.x.z * m.y.x * m.z.w;
    let g153: int = m.w.w * m.x.x * m.y.z * m.z.z - m.w.w * m.x.z * m.y.z * m.z.x;
    let g154: int = g153 - m.w.x * m.x.w * m.y.z * m.z.z;
    let g155: int = g154 + m.w.x * m.x.z * m.y.z * m.z.w;
    let g156: int = g155 + m.w.z * m.x.w * m.y.z * m.z.x;
    let g157: int = g156 - m.w.z * m.x.x * m.y.z * m.z.w;
    let g158: int = m.w.w * m.x.x * m.y.z * m.z.z - m.w.w * m.x.z * m.y.x * m.z.z;
    let g159: int = g158 - m.w.x * m.x.w * m.y.z * m.z.z;
    let g160: int = g159 + m.w.x * m.x.z * m.y.w * m.z.z;
    let g161: int = g160 + m.w.z * m.x.w * m.y.z * m.z.x;
    let g162: int = g161 - m.w.z * m.x.x * m.y.z * m.z.w;
    let g163: int = g162 - m.w.z * m.x.z * m.y.w * m.z.x;
    let g164: int = g163 + m.w.z * m.x.z * m.y.x * m.z.w;
    let g165: int = (0 - m.w.w * m.x.x * m.y.z * m.z.z) + m.w.w * m.x.z * m.y.x * m.z.z;
    let g166: int = g165 + m.w.x * m.x.w * m.y.z * m.z.z;
    let g167: int = g166 - m.w.x * m.x.z * m.y.w * m.z.z;
    let g168: int = g167 - m.w.z * m.x.w * m.y.x * m.z.z;
    let g169: int = g168 + m.w.z * m.x.x * m.y.w * m.z.z;
    let g170: int = (0 - m.w.z * m.x.w * m.y.x * m.z.z) + m.w.z * m.x.w * m.y.z * m.z.x;
    let g171: int = g170 + m.w.z * m.x.x * m.y.w * m.z.z;
    let g172: int = g171 - m.w.z * m.x.x * m.y.z * m.z.w;
    let g173: int = g172 - m.w.z * m.x.z * m.y.w * m.z.x;
    let g174: int = g173 + m.w.z * m.x.z * m.y.x * m.z.w;
    let g175: int = m.w.z * m.x.w * m.y.x * m.z.z - m.w.z * m.x.w * m.y.z * m.z.x;
    let g176: int = g175 - m.w.z * m.x.x * m.y.w * m.z.z;
    let g177: int = g176 + m.w.z * m.x.x * m.y.z * m.z.w;
    let g178: int = g177 + m.w.z * m.x.z * m.y.w * m.z.x;
    let g179: int = g178 - m.w.z * m.x.z * m.y.x * m.z.w;
    let g180: int = (0 - m.w.w * m.x.w * m.y.x * m.z.z) + m.w.w * m.x.w * m.y.z * m.z.x;
    let g181: int = g180 + m.w.x * m.x.w * m.y.w * m.z.z;
    let g182: int = g181 - m.w.x * m.x.w * m.y.z * m.z.w;
    let g183: int = g182 - m.w.z * m.x.w * m.y.w * m.z.x;
    let g184: int = g183 + m.w.z * m.x.w * m.y.x * m.z.w;
    let g185: int = m.w.w * m.x.x * m.y.w * m.z.z - m.w.w * m.x.z * m.y.w * m.z.x;
    let g186: int = g185 - m.w.x * m.x.w * m.y.w * m.z.z;
    let g187: int = g186 + m.w.x * m.x.z * m.y.w * m.z.w;
    let g188: int = g187 + m.w.z * m.x.w * m.y.w * m.z.x;
    let g189: int = g188 - m.w.z * m.x.x * m.y.w * m.z.w;
    let g190: int = g180 + m.w.w * m.x.x * m.y.w * m.z.z;
    let g191: int = g190 - m.w.w * m.x.z * m.y.w * m.z.x;
    let g192: int = g191 - m.w.x * m.x.w * m.y.z * m.z.w;
    let g193: int = g192 + m.w.x * m.x.z * m.y.w * m.z.w;
    let g194: int = g193 + m.w.z * m.x.w * m.y.x * m.z.w;
    let g195: int = g194 - m.w.z * m.x.x * m.y.w * m.z.w;
    let g196: int = (0 - m.w.w * m.x.x * m.y.z * m.z.w) + m.w.w * m.x.z * m.y.x * m.z.w;
    let g197: int = g196 + m.w.x * m.x.w * m.y.z * m.z.w;
    let g198: int = g197 - m.w.x * m.x.z * m.y.w * m.z.w;
    let g199: int = g198 - m.w.z * m.x.w * m.y.x * m.z.w;
    let g200: int = g199 + m.w.z * m.x.x * m.y.w * m.z.w;
    let g201: int = g190 - m.w.w * m.x.x * m.y.z * m.z.w;
    let g202: int = g201 - m.w.w * m.x.z * m.y.w * m.z.x;
    let g203: int = g202 + m.w.w * m.x.z * m.y.x * m.z.w;
    let g204: int = m.w.w * m.x.w * m.y.x * m.z.z - m.w.w * m.x.w * m.y.z * m.z.x;
    let g205: int = g204 - m.w.w * m.x.x * m.y.w * m.z.z;
    let g206: int = g205 + m.w.w * m.x.x * m.y.z * m.z.w;
    let g207: int = g206 + m.w.w * m.x.z * m.y.w * m.z.x;
    let g208: int = g207 - m.w.w * m.x.z * m.y.x * m.z.w;
    let g209: int = (0 - m.w.y * m.z.z) + m.w.z * m.z.y;
    let g210: int = (0 - m.w.y * m.y.w * m.z.z) + m.w.z * m.y.w * m.z.y;
    let g211: int = m.w.y * m.y.z - m.w.z * m.y.y;
    let g212: int = m.w.y * m.y.z * m.z.w - m.w.z * m.y.y * m.z.w;
    let g213: int = (0 - m.w.y * m.y.w * m.z.z) + m.w.y * m.y.z * m.z.w;
    let g214: int = g213 + m.w.z * m.y.w * m.z.y;
    let g215: int = g214 - m.w.z * m.y.y * m.z.w;
    let g216: int = m.y.y * m.z.z - m.y.z * m.z.y;
    let g217: int = m.w.w * m.y.y * m.z.z - m.w.w * m.y.z * m.z.y;
    let g218: int = g217 - m.w.y * m.y.w * m.z.z;
    let g219: int = g218 + m.w.y * m.y.z * m.z.w;
    let g220: int = g219 + m.w.z * m.y.w * m.z.y;
    let g221: int = g220 - m.w.z * m.y.y * m.z.w;
    let g222: int = g114 - m.w.y * m.x.x * m.y.w * m.z.z;
    let g223: int = g222 + m.w.y * m.x.x * m.y.z * m.z.w;
    let g224: int = g223 + m.w.z * m.x.x * m.y.w * m.z.y;
    let g225: int = g224 - m.w.z * m.x.x * m.y.y * m.z.w;
    let g226: int = (0 - m.w.y * m.x.w * m.z.z) + m.w.z * m.x.w * m.z.y;
    let g227: int = m.w.y * m.x.z - m.w.z * m.x.y;
    let g228: int = m.w.y * m.x.z * m.z.w - m.w.z * m.x.y * m.z.w;
    let g229: int = (0 - m.w.y * m.x.w * m.z.z) + m.w.y * m.x.z * m.z.w;
    let g230: int = g229 + m.w.z * m.x.w * m.z.y;
    let g231: int = g230 - m.w.z * m.x.y * m.z.w;
    let g232: int = m.x.y * m.z.z - m.x.z * m.z.y;
    let g233: int = m.w.w * m.x.y * m.z.z - m.w.w * m.x.z * m.z.y;
    let g234: int = g233 - m.w.y * m.x.w * m.z.z;
    let g235: int = g234 + m.w.y * m.x.z * m.z.w;
    let g236: int = g235 + m.w.z * m.x.w * m.z.y;
    let g237: int = g236 - m.w.z * m.x.y * m.z.w;
    let g238: int = m.w.w * m.x.y * m.y.x * m.z.z - m.w.w * m.x.z * m.y.x * m.z.y;
    let g239: int = g238 - m.w.y * m.x.w * m.y.x * m.z.z;
    let g240: int = g239 + m.w.y * m.x.z * m.y.x * m.z.w;
    let g241: int = g240 + m.w.z * m.x.w * m.y.x * m.z.y;
    let g242: int = g241 - m.w.z * m.x.y * m.y.x * m.z.w;
    let g243: int = g115 + m.w.w * m.x.z * m.y.x * m.z.y;
    let g244: int = g243 + m.w.y * m.x.w * m.y.x * m.z.z;
    let g245: int = g244 - m.w.y * m.x.x * m.y.w * m.z.z;
    let g246: int = g245 + m.w.y * m.x.x * m.y.z * m.z.w;
    let g247: int = g246 - m.w.y * m.x.z * m.y.x * m.z.w;
    let g248: int = g247 - m.w.z * m.x.w * m.y.x * m.z.y;
    let g249: int = g248 + m.w.z * m.x.x * m.y.w * m.z.y;
    let g250: int = g249 - m.w.z * m.x.x * m.y.y * m.z.w;
    let g251: int = g250 + m.w.z * m.x.y * m.y.x * m.z.w;
    let g252: int = (0 - m.w.y * m.y.z) + m.w.z * m.y.y;
    let g253: int = (0 - m.w.y * m.x.w * m.y.z) + m.w.z * m.x.w * m.y.y;
    let g254: int = m.w.y * m.x.z * m.y.w - m.w.z * m.x.y * m.y.w;
    let g255: int = (0 - m.w.y * m.x.w * m.y.z) + m.w.y * m.x.z * m.y.w;
    let g256: int = g255 + m.w.z * m.x.w * m.y.y;
    let g257: int = g256 - m.w.z * m.x.y * m.y.w;
    let g258: int = m.x.y * m.y.z - m.x.z * m.y.y;
    let g259: int = m.w.w * m.x.y * m.y.z - m.w.w * m.x.z * m.y.y;
    let g260: int = g259 - m.w.y * m.x.w * m.y.z;
    let g261: int = g260 + m.w.y * m.x.z * m.y.w;
    let g262: int = g261 + m.w.z * m.x.w * m.y.y;
    let g263: int = g262 - m.w.z * m.x.y * m.y.w;
    let g264: int = m.w.w * m.x.y * m.y.z * m.z.x - m.w.w * m.x.z * m.y.y * m.z.x;
    let g265: int = g264 - m.w.y * m.x.w * m.y.z * m.z.x;
    let g266: int = g265 + m.w.y * m.x.z * m.y.w * m.z.x;
    let g267: int = g266 + m.w.z * m.x.w * m.y.y * m.z.x;
    let g268: int = g267 - m.w.z * m.x.y * m.y.w * m.z.x;
    let g269: int = g118 + m.w.y * m.x.w * m.y.x * m.z.z;
    let g270: int = g269 - m.w.y * m.x.w * m.y.z * m.z.x;
    let g271: int = g270 - m.w.y * m.x.x * m.y.w * m.z.z;
    let g272: int = g271 + m.w.y * m.x.x * m.y.z * m.z.w;
    let g273: int = g272 + m.w.y * m.x.z * m.y.w * m.z.x;
    let g274: int = g273 - m.w.y * m.x.z * m.y.x * m.z.w;
    let g275: int = g274 - m.w.z * m.x.w * m.y.x * m.z.y;
    let g276: int = g275 + m.w.z * m.x.w * m.y.y * m.z.x;
    let g277: int = g276 + m.w.z * m.x.x * m.y.w * m.z.y;
    let g278: int = g277 - m.w.z * m.x.x * m.y.y * m.z.w;
    let g279: int = g278 - m.w.z * m.x.y * m.y.w * m.z.x;
    let g280: int = g279 + m.w.z * m.x.y * m.y.x * m.z.w;
    let g281: int = m.x.w * m.y.y * m.z.z - m.x.w * m.y.z * m.z.y;
    let g282: int = (0 - m.x.y * m.z.z) + m.x.z * m.z.y;
    let g283: int = (0 - m.x.y * m.y.w * m.z.z) + m.x.z * m.y.w * m.z.y;
    let g284: int = g281 - m.x.y * m.y.w * m.z.z;
    let g285: int = g284 + m.x.z * m.y.w * m.z.y;
    let g286: int = m.x.y * m.y.z * m.z.w - m.x.z * m.y.y * m.z.w;
    let g287: int = g284 + m.x.y * m.y.z * m.z.w;
    let g288: int = g287 + m.x.z * m.y.w * m.z.y;
    let g289: int = g288 - m.x.z * m.y.y * m.z.w;
    let g290: int = m.w.x * m.x.w * m.y.y * m.z.z - m.w.x * m.x.w * m.y.z * m.z.y;
    let g291: int = g290 - m.w.x * m.x.y * m.y.w * m.z.z;
    let g292: int = g291 + m.w.x * m.x.y * m.y.z * m.z.w;
    let g293: int = g292 + m.w.x * m.x.z * m.y.w * m.z.y;
    let g294: int = g293 - m.w.x * m.x.z * m.y.y * m.z.w;
    assert(m.z.x * m.w.z == m.w.z * m.z.x
        && ((0 - m.w.x * m.z.z) + m.w.z * m.z.x) * (m.y.w) == (0 - m.w.x * m.z.z) * (m.y.w) + (m.w.z * m.z.x) * (m.y.w)
        && ((0 - m.w.x * m.z.z)) * (m.y.w) == (0 - m.w.x * m.y.w * m.z.z)
        && (m.w.z * m.z.x) * m.y.w == m.w.z * m.y.w * m.z.x
    ) by (nonlinear_arith);
    assert(m.y.x * m.w.z == m.w.z * m.y.x
        && (m.w.x * m.y.z - m.w.z * m.y.x) * (m.z.w) == m.w.x * m.y.z * (m.z.w) - (m.w.z * m.y.x) * (m.z.w)
        && m.z.x * m.y.z == m.y.z * m.z.x
        && (m.y.x * m.z.z - m.y.z * m.z.x) * (m.w.w) == m.y.x * m.z.z * (m.w.w) - (m.y.z * m.z.x) * (m.w.w)
    ) by (nonlinear_arith);
    assert((m.y.x * m.z.z) * m.w.w == m.w.w * m.y.x * m.z.z
        && (m.y.z * m.z.x) * m.w.w == m.w.w * m.y.z * m.z.x
        && (m.x.x) * (g16 + m.w.z * m.y.x * m.z.w) == (m.x.x) * (g16) + (m.x.x) * (m.w.z * m.y.x * m.z.w)
    ) by (nonlinear_arith);
    assert((m.x.x) * (g15 - m.w.z * m.y.w * m.z.x) == (m.x.x) * (g15) - (m.x.x) * (m.w.z * m.y.w * m.z.x)
        && (m.x.x) * (g14 - m.w.x * m.y.z * m.z.w) == (m.x.x) * (g14) - (m.x.x) * (m.w.x * m.y.z * m.z.w)
    ) by (nonlinear_arith);
    assert((m.x.x) * (g13 + m.w.x * m.y.w * m.z.z) == (m.x.x) * (g13) + (m.x.x) * (m.w.x * m.y.w * m.z.z)
        && (m.x.x) * ((0 - m.w.w * m.y.x * m.z.z) + m.w.w * m.y.z * m.z.x) == (m.x.x) * ((0 - m.w.w * m.y.x * m.z.z)) + (m.x.x) * (m.w.w * m.y.z * m.z.x)
    ) by (nonlinear_arith);
    assert((m.x.x) * ((0 - m.w.w * m.y.x * m.z.z)) == (0 - m.w.w * m.x.x * m.y.x * m.z.z)
        && m.x.x * (m.w.w * m.y.z * m.z.x) == m.w.w * m.x.x * m.y.z * m.z.x
        && m.x.x * (m.w.x * m.y.w * m.z.z) == m.w.x * m.x.x * m.y.w * m.z.z
    ) by (nonlinear_arith);
    assert(m.x.x * (m.w.x * m.y.z * m.z.w) == m.w.x * m.x.x * m.y.z * m.z.w
        && m.x.x * (m.w.z * m.y.w * m.z.x) == m.w.z * m.x.x * m.y.w * m.z.x
        && m.x.x * (m.w.z * m.y.x * m.z.w) == m.w.z * m.x.x * m.y.x * m.z.w
    ) by (nonlinear_arith);
    assert(((0 - m.w.x * m.z.z) + m.w.z * m.z.x) * (m.x.w) == (0 - m.w.x * m.z.z) * (m.x.w) + (m.w.z * m.z.x) * (m.x.w)
        && ((0 - m.w.x * m.z.z)) * (m.x.w) == (0 - m.w.x * m.x.w * m.z.z)
        && (m.w.z * m.z.x) * m.x.w == m.w.z * m.x.w * m.z.x
        && m.x.x * m.w.z == m.w.z * m.x.x
    ) by (nonlinear_arith);
    assert((m.w.x * m.x.z - m.w.z * m.x.x) * (m.z.w) == m.w.x * m.x.z * (m.z.w) - (m.w.z * m.x.x) * (m.z.w)
        && m.z.x * m.x.z == m.x.z * m.z.x
        && (m.x.x * m.z.z - m.x.z * m.z.x) * (m.w.w) == m.x.x * m.z.z * (m.w.w) - (m.x.z * m.z.x) * (m.w.w)
    ) by (nonlinear_arith);
    assert((m.x.x * m.z.z) * m.w.w == m.w.w * m.x.x * m.z.z
        && (m.x.z * m.z.x) * m.w.w == m.w.w * m.x.z * m.z.x
        && (m.y.x) * (g33 - m.w.z * m.x.x * m.z.w) == (m.y.x) * (g33) - (m.y.x) * (m.w.z * m.x.x * m.z.w)
    ) by (nonlinear_arith);
    assert((m.y.x) * (g32 + m.w.z * m.x.w * m.z.x) == (m.y.x) * (g32) + (m.y.x) * (m.w.z * m.x.w * m.z.x)
        && (m.y.x) * (g31 + m.w.x * m.x.z * m.z.w) == (m.y.x) * (g31) + (m.y.x) * (m.w.x * m.x.z * m.z.w)
    ) by (nonlinear_arith);
    assert((m.y.x) * (g30 - m.w.x * m.x.w * m.z.z) == (m.y.x) * (g30) - (m.y.x) * (m.w.x * m.x.w * m.z.z)
        && (m.y.x) * (m.w.w * m.x.x * m.z.z - m.w.w * m.x.z * m.z.x) == (m.y.x) * (m.w.w * m.x.x * m.z.z) - (m.y.x) * (m.w.w * m.x.z * m.z.x)
    ) by (nonlinear_arith);
    assert(m.y.x * (m.w.w * m.x.x * m.z.z) == m.w.w * m.x.x * m.y.x * m.z.z
        && m.y.x * (m.w.w * m.x.z * m.z.x) == m.w.w * m.x.z * m.y.x * m.z.x
        && m.y.x * (m.w.x * m.x.w * m.z.z) == m.w.x * m.x.w * m.y.x * m.z.z
    ) by (nonlinear_arith);
    assert(m.y.x * (m.w.x * m.x.z * m.z.w) == m.w.x * m.x.z * m.y.x * m.z.w
        && m.y.x * (m.w.z * m.x.w * m.z.x) == m.w.z * m.x.w * m.y.x * m.z.x
        && m.y.x * (m.w.z * m.x.x * m.z.w) == m.w.z * m.x.x * m.y.x * m.z.w
    ) by (nonlinear_arith);
    assert(((0 - m.w.x * m.y.z) + m.w.z * m.y.x) * (m.x.w) == (0 - m.w.x * m.y.z) * (m.x.w) + (m.w.z * m.y.x) * (m.x.w)
        && ((0 - m.w.x * m.y.z)) * (m.x.w) == (0 - m.w.x * m.x.w * m.y.z)
        && (m.w.z * m.y.x) * m.x.w == m.w.z * m.x.w * m.y.x
    ) by (nonlinear_arith);
    assert((m.w.x * m.x.z - m.w.z * m.x.x) * (m.y.w) == m.w.x * m.x.z * (m.y.w) - (m.w.z * m.x.x) * (m.y.w)
        && m.y.x * m.x.z == m.x.z * m.y.x
        && (m.x.x * m.y.z - m.x.z * m.y.x) * (m.w.w) == m.x.x * m.y.z * (m.w.w) - (m.x.z * m.y.x) * (m.w.w)
    ) by (nonlinear_arith);
    assert((m.x.x * m.y.z) * m.w.w == m.w.w * m.x.x * m.y.z
        && (m.x.z * m.y.x) * m.w.w == m.w.w * m.x.z * m.y.x
        && (m.z.x) * (g62 + m.w.z * m.x.x * m.y.w) == (m.z.x) * (g62) + (m.z.x) * (m.w.z * m.x.x * m.y.w)
    ) by (nonlinear_arith);
    assert((m.z.x) * (g61 - m.w.z * m.x.w * m.y.x) == (m.z.x) * (g61) - (m.z.x) * (m.w.z * m.x.w * m.y.x)
        && (m.z.x) * (g60 - m.w.x * m.x.z * m.y.w) == (m.z.x) * (g60) - (m.z.x) * (m.w.x * m.x.z * m.y.w)
    ) by (nonlinear_arith);
    assert((m.z.x) * (g59 + m.w.x * m.x.w * m.y.z) == (m.z.x) * (g59) + (m.z.x) * (m.w.x * m.x.w * m.y.z)
        && (m.z.x) * ((0 - m.w.w * m.x.x * m.y.z) + m.w.w * m.x.z * m.y.x) == (m.z.x) * ((0 - m.w.w * m.x.x * m.y.z)) + (m.z.x) * (m.w.w * m.x.z * m.y.x)
    ) by (nonlinear_arith);
    assert((m.z.x) * ((0 - m.w.w * m.x.x * m.y.z)) == (0 - m.w.w * m.x.x * m.y.z * m.z.x)
        && m.z.x * (m.w.w * m.x.z * m.y.x) == m.w.w * m.x.z * m.y.x * m.z.x
        && m.z.x * (m.w.x * m.x.w * m.y.z) == m.w.x * m.x.w * m.y.z * m.z.x
    ) by (nonlinear_arith);
    assert(m.z.x * (m.w.x * m.x.z * m.y.w) == m.w.x * m.x.z * m.y.w * m.z.x
        && m.z.x * (m.w.z * m.x.w * m.y.x) == m.w.z * m.x.w * m.y.x * m.z.x
        && m.z.x * (m.w.z * m.x.x * m.y.w) == m.w.z * m.x.x * m.y.w * m.z.x
    ) by (nonlinear_arith);
    assert((m.y.x * m.z.z - m.y.z * m.z.x) * (m.x.w) == m.y.x * m.z.z * (m.x.w) - (m.y.z * m.z.x) * (m.x.w)
        && (m.y.x * m.z.z) * m.x.w == m.x.w * m.y.x * m.z.z
        && (m.y.z * m.z.x) * m.x.w == m.x.w * m.y.z * m.z.x
    ) by (nonlinear_arith);
    assert(((0 - m.x.x * m.z.z) + m.x.z * m.z.x) * (m.y.w) == (0 - m.x.x * m.z.z) * (m.y.w) + (m.x.z * m.z.x) * (m.y.w)
        && ((0 - m.x.x * m.z.z)) * (m.y.w) == (0 - m.x.x * m.y.w * m.z.z)
        && (m.x.z * m.z.x) * m.y.w == m.x.z * m.y.w * m.z.x
    ) by (nonlinear_arith);
    assert((m.x.x * m.y.z - m.x.z * m.y.x) * (m.z.w) == m.x.x * m.y.z * (m.z.w) - (m.x.z * m.y.x) * (m.z.w)
        && (m.w.x) * (g81 - m.x.z * m.y.x * m.z.w) == (m.w.x) * (g81) - (m.w.x) * (m.x.z * m.y.x * m.z.w)
    ) by (nonlinear_arith);
    assert((m.w.x) * (g80 + m.x.z * m.y.w * m.z.x) == (m.w.x) * (g80) + (m.w.x) * (m.x.z * m.y.w * m.z.x)
        && (m.w.x) * (g77 + m.x.x * m.y.z * m.z.w) == (m.w.x) * (g77) + (m.w.x) * (m.x.x * m.y.z * m.z.w)
    ) by (nonlinear_arith);
    assert((m.w.x) * (g74 - m.x.x * m.y.w * m.z.z) == (m.w.x) * (g74) - (m.w.x) * (m.x.x * m.y.w * m.z.z)
        && (m.w.x) * (m.x.w * m.y.x * m.z.z - m.x.w * m.y.z * m.z.x) == (m.w.x) * (m.x.w * m.y.x * m.z.z) - (m.w.x) * (m.x.w * m.y.z * m.z.x)
    ) by (nonlinear_arith);
    assert(m.w.x * (m.x.w * m.y.x * m.z.z) == m.w.x * m.x.w * m.y.x * m.z.z
        && m.w.x * (m.x.w * m.y.z * m.z.x) == m.w.x * m.x.w * m.y.z * m.z.x
        && m.w.x * (m.x.x * m.y.w * m.z.z) == m.w.x * m.x.x * m.y.w * m.z.z
    ) by (nonlinear_arith);
    assert(m.w.x * (m.x.x * m.y.z * m.z.w) == m.w.x * m.x.x * m.y.z * m.z.w
        && m.w.x * (m.x.z * m.y.w * m.z.x) == m.w.x * m.x.z * m.y.w * m.z.x
        && m.w.x * (m.x.z * m.y.x * m.z.w) == m.w.x * m.x.z * m.y.x * m.z.w
    ) by (nonlinear_arith);
    assert((m.x.y) * (g16 + m.w.z * m.y.x * m.z.w) == (m.x.y) * (g16) + (m.x.y) * (m.w.z * m.y.x * m.z.w)
        && (m.x.y) * (g15 - m.w.z * m.y.w * m.z.x) == (m.x.y) * (g15) - (m.x.y) * (m.w.z * m.y.w * m.z.x)
    ) by (nonlinear_arith);
    assert((m.x.y) * (g14 - m.w.x * m.y.z * m.z.w) == (m.x.y) * (g14) - (m.x.y) * (m.w.x * m.y.z * m.z.w)
        && (m.x.y) * (g13 + m.w.x * m.y.w * m.z.z) == (m.x.y) * (g13) + (m.x.y) * (m.w.x * m.y.w * m.z.z)
    ) by (nonlinear_arith);
    assert((m.x.y) * ((0 - m.w.w * m.y.x * m.z.z) + m.w.w * m.y.z * m.z.x) == (m.x.y) * ((0 - m.w.w * m.y.x * m.z.z)) + (m.x.y) * (m.w.w * m.y.z * m.z.x)
        && (m.x.y) * ((0 - m.w.w * m.y.x * m.z.z)) == (0 - m.w.w * m.x.y * m.y.x * m.z.z)
    ) by (nonlinear_arith);
    assert(m.x.y * (m.w.w * m.y.z * m.z.x) == m.w.w * m.x.y * m.y.z * m.z.x
        && m.x.y * (m.w.x * m.y.w * m.z.z) == m.w.x * m.x.y * m.y.w * m.z.z
        && m.x.y * (m.w.x * m.y.z * m.z.w) == m.w.x * m.x.y * m.y.z * m.z.w
    ) by (nonlinear_arith);
    assert(m.x.y * (m.w.z * m.y.w * m.z.x) == m.w.z * m.x.y * m.y.w * m.z.x
        && m.x.y * (m.w.z * m.y.x * m.z.w) == m.w.z * m.x.y * m.y.x * m.z.w
    ) by (nonlinear_arith);
    assert((m.y.y) * (g33 - m.w.z * m.x.x * m.z.w) == (m.y.y) * (g33) - (m.y.y) * (m.w.z * m.x.x * m.z.w)
        && (m.y.y) * (g32 + m.w.z * m.x.w * m.z.x) == (m.y.y) * (g32) + (m.y.y) * (m.w.z * m.x.w * m.z.x)
    ) by (nonlinear_arith);
    assert((m.y.y) * (g31 + m.w.x * m.x.z * m.z.w) == (m.y.y) * (g31) + (m.y.y) * (m.w.x * m.x.z * m.z.w)
        && (m.y.y) * (g30 - m.w.x * m.x.w * m.z.z) == (m.y.y) * (g30) - (m.y.y) * (m.w.x * m.x.w * m.z.z)
    ) by (nonlinear_arith);
    assert((m.y.y) * (m.w.w * m.x.x * m.z.z - m.w.w * m.x.z * m.z.x) == (m.y.y) * (m.w.w * m.x.x * m.z.z) - (m.y.y) * (m.w.w * m.x.z * m.z.x)
        && m.y.y * (m.w.w * m.x.x * m.z.z) == m.w.w * m.x.x * m.y.y * m.z.z
    ) by (nonlinear_arith);
    assert(m.y.y * (m.w.w * m.x.z * m.z.x) == m.w.w * m.x.z * m.y.y * m.z.x
        && m.y.y * (m.w.x * m.x.w * m.z.z) == m.w.x * m.x.w * m.y.y * m.z.z
        && m.y.y * (m.w.x * m.x.z * m.z.w) == m.w.x * m.x.z * m.y.y * m.z.w
    ) by (nonlinear_arith);
    assert(m.y.y * (m.w.z * m.x.w * m.z.x) == m.w.z * m.x.w * m.y.y * m.z.x
        && m.y.y * (m.w.z * m.x.x * m.z.w) == m.w.z * m.x.x * m.y.y * m.z.w
    ) by (nonlinear_arith);
    assert((m.z.y) * (g62 + m.w.z * m.x.x * m.y.w) == (m.z.y) * (g62) + (m.z.y) * (m.w.z * m.x.x * m.y.w)
        && (m.z.y) * (g61 - m.w.z * m.x.w * m.y.x) == (m.z.y) * (g61) - (m.z.y) * (m.w.z * m.x.w * m.y.x)
    ) by (nonlinear_arith);
    assert((m.z.y) * (g60 - m.w.x * m.x.z * m.y.w) == (m.z.y) * (g60) - (m.z.y) * (m.w.x * m.x.z * m.y.w)
        && (m.z.y) * (g59 + m.w.x * m.x.w * m.y.z) == (m.z.y) * (g59) + (m.z.y) * (m.w.x * m.x.w * m.y.z)
    ) by (nonlinear_arith);
    assert((m.z.y) * ((0 - m.w.w * m.x.x * m.y.z) + m.w.w * m.x.z * m.y.x) == (m.z.y) * ((0 - m.w.w * m.x.x * m.y.z)) + (m.z.y) * (m.w.w * m.x.z * m.y.x)
        && (m.z.y) * ((0 - m.w.w * m.x.x * m.y.z)) == (0 - m.w.w * m.x.x * m.y.z * m.z.y)
    ) by (nonlinear_arith);
    assert(m.z.y * (m.w.w * m.x.z * m.y.x) == m.w.w * m.x.z * m.y.x * m.z.y
        && m.z.y * (m.w.x * m.x.w * m.y.z) == m.w.x * m.x.w * m.y.z * m.z.y
        && m.z.y * (m.w.x * m.x.z * m.y.w) == m.w.x * m.x.z * m.y.w * m.z.y
    ) by (nonlinear_arith);
    assert(m.z.y * (m.w.z * m.x.w * m.y.x) == m.w.z * m.x.w * m.y.x * m.z.y
        && m.z.y * (m.w.z * m.x.x * m.y.w) == m.w.z * m.x.x * m.y.w * m.z.y
    ) by (nonlinear_arith);
    assert((m.w.y) * (g81 - m.x.z * m.y.x * m.z.w) == (m.w.y) * (g81) - (m.w.y) * (m.x.z * m.y.x * m.z.w)
        && (m.w.y) * (g80 + m.x.z * m.y.w * m.z.x) == (m.w.y) * (g80) + (m.w.y) * (m.x.z * m.y.w * m.z.x)
    ) by (nonlinear_arith);
    assert((m.w.y) * (g77 + m.x.x * m.y.z * m.z.w) == (m.w.y) * (g77) + (m.w.y) * (m.x.x * m.y.z * m.z.w)
        && (m.w.y) * (g74 - m.x.x * m.y.w * m.z.z) == (m.w.y) * (g74) - (m.w.y) * (m.x.x * m.y.w * m.z.z)
    ) by (nonlinear_arith);
    assert((m.w.y) * (m.x.w * m.y.x * m.z.z - m.x.w * m.y.z * m.z.x) == (m.w.y) * (m.x.w * m.y.x * m.z.z) - (m.w.y) * (m.x.w * m.y.z * m.z.x)
        && m.w.y * (m.x.w * m.y.x * m.z.z) == m.w.y * m.x.w * m.y.x * m.z.z
    ) by (nonlinear_arith);
    assert(m.w.y * (m.x.w * m.y.z * m.z.x) == m.w.y * m.x.w * m.y.z * m.z.x
        && m.w.y * (m.x.x * m.y.w * m.z.z) == m.w.y * m.x.x * m.y.w * m.z.z
        && m.w.y * (m.x.x * m.y.z * m.z.w) == m.w.y * m.x.x * m.y.z * m.z.w
    ) by (nonlinear_arith);
    assert(m.w.y * (m.x.z * m.y.w * m.z.x) == m.w.y * m.x.z * m.y.w * m.z.x
        && m.w.y * (m.x.z * m.y.x * m.z.w) == m.w.y * m.x.z * m.y.x * m.z.w
    ) by (nonlinear_arith);
    assert((m.x.z) * (g16 + m.w.z * m.y.x * m.z.w) == (m.x.z) * (g16) + (m.x.z) * (m.w.z * m.y.x * m.z.w)
        && (m.x.z) * (g15 - m.w.z * m.y.w * m.z.x) == (m.x.z) * (g15) - (m.x.z) * (m.w.z * m.y.w * m.z.x)
    ) by (nonlinear_arith);
    assert((m.x.z) * (g14 - m.w.x * m.y.z * m.z.w) == (m.x.z) * (g14) - (m.x.z) * (m.w.x * m.y.z * m.z.w)
        && (m.x.z) * (g13 + m.w.x * m.y.w * m.z.z) == (m.x.z) * (g13) + (m.x.z) * (m.w.x * m.y.w * m.z.z)
    ) by (nonlinear_arith);
    assert((m.x.z) * ((0 - m.w.w * m.y.x * m.z.z) + m.w.w * m.y.z * m.z.x) == (m.x.z) * ((0 - m.w.w * m.y.x * m.z.z)) + (m.x.z) * (m.w.w * m.y.z * m.z.x)
        && (m.x.z) * ((0 - m.w.w * m.y.x * m.z.z)) == (0 - m.w.w * m.x.z * m.y.x * m.z.z)
    ) by (nonlinear_arith);
    assert(m.x.z * (m.w.w * m.y.z * m.z.x) == m.w.w * m.x.z * m.y.z * m.z.x
        && m.x.z * (m.w.x * m.y.w * m.z.z) == m.w.x * m.x.z * m.y.w * m.z.z
        && m.x.z * (m.w.x * m.y.z * m.z.w) == m.w.x * m.x.z * m.y.z * m.z.w
    ) by (nonlinear_arith);
    assert(m.x.z * (m.w.z * m.y.w * m.z.x) == m.w.z * m.x.z * m.y.w * m.z.x
        && m.x.z * (m.w.z * m.y.x * m.z.w) == m.w.z * m.x.z * m.y.x * m.z.w
    ) by (nonlinear_arith);
    assert((m.y.z) * (g33 - m.w.z * m.x.x * m.z.w) == (m.y.z) * (g33) - (m.y.z) * (m.w.z * m.x.x * m.z.w)
        && (m.y.z) * (g32 + m.w.z * m.x.w * m.z.x) == (m.y.z) * (g32) + (m.y.z) * (m.w.z * m.x.w * m.z.x)
    ) by (nonlinear_arith);
    assert((m.y.z) * (g31 + m.w.x * m.x.z * m.z.w) == (m.y.z) * (g31) + (m.y.z) * (m.w.x * m.x.z * m.z.w)
        && (m.y.z) * (g30 - m.w.x * m.x.w * m.z.z) == (m.y.z) * (g30) - (m.y.z) * (m.w.x * m.x.w * m.z.z)
    ) by (nonlinear_arith);
    assert((m.y.z) * (m.w.w * m.x.x * m.z.z - m.w.w * m.x.z * m.z.x) == (m.y.z) * (m.w.w * m.x.x * m.z.z) - (m.y.z) * (m.w.w * m.x.z * m.z.x)
        && m.y.z * (m.w.w * m.x.x * m.z.z) == m.w.w * m.x.x * m.y.z * m.z.z
    ) by (nonlinear_arith);
    assert(m.y.z * (m.w.w * m.x.z * m.z.x) == m.w.w * m.x.z * m.y.z * m.z.x
        && m.y.z * (m.w.x * m.x.w * m.z.z) == m.w.x * m.x.w * m.y.z * m.z.z
        && m.y.z * (m.w.x * m.x.z * m.z.w) == m.w.x * m.x.z * m.y.z * m.z.w
    ) by (nonlinear_arith);
    assert(m.y.z * (m.w.z * m.x.w * m.z.x) == m.w.z * m.x.w * m.y.z * m.z.x
        && m.y.z * (m.w.z * m.x.x * m.z.w) == m.w.z * m.x.x * m.y.z * m.z.w
    ) by (nonlinear_arith);
    assert((m.z.z) * (g62 + m.w.z * m.x.x * m.y.w) == (m.z.z) * (g62) + (m.z.z) * (m.w.z * m.x.x * m.y.w)
        && (m.z.z) * (g61 - m.w.z * m.x.w * m.y.x) == (m.z.z) * (g61) - (m.z.z) * (m.w.z * m.x.w * m.y.x)
    ) by (nonlinear_arith);
    assert((m.z.z) * (g60 - m.w.x * m.x.z * m.y.w) == (m.z.z) * (g60) - (m.z.z) * (m.w.x * m.x.z * m.y.w)
        && (m.z.z) * (g59 + m.w.x * m.x.w * m.y.z) == (m.z.z) * (g59) + (m.z.z) * (m.w.x * m.x.w * m.y.z)
    ) by (nonlinear_arith);
    assert((m.z.z) * ((0 - m.w.w * m.x.x * m.y.z) + m.w.w * m.x.z * m.y.x) == (m.z.z) * ((0 - m.w.w * m.x.x * m.y.z)) + (m.z.z) * (m.w.w * m.x.z * m.y.x)
        && (m.z.z) * ((0 - m.w.w * m.x.x * m.y.z)) == (0 - m.w.w * m.x.x * m.y.z * m.z.z)
    ) by (nonlinear_arith);
    assert(m.z.z * (m.w.w * m.x.z * m.y.x) == m.w.w * m.x.z * m.y.x * m.z.z
        && m.z.z * (m.w.x * m.x.w * m.y.z) == m.w.x * m.x.w * m.y.z * m.z.z
        && m.z.z * (m.w.x * m.x.z * m.y.w) == m.w.x * m.x.z * m.y.w * m.z.z
    ) by (nonlinear_arith);
    assert(m.z.z * (m.w.z * m.x.w * m.y.x) == m.w.z * m.x.w * m.y.x * m.z.z
        && m.z.z * (m.w.z * m.x.x * m.y.w) == m.w.z * m.x.x * m.y.w * m.z.z
    ) by (nonlinear_arith);
    assert((m.w.z) * (g81 - m.x.z * m.y.x * m.z.w) == (m.w.z) * (g81) - (m.w.z) * (m.x.z * m.y.x * m.z.w)
        && (m.w.z) * (g80 + m.x.z * m.y.w * m.z.x) == (m.w.z) * (g80) + (m.w.z) * (m.x.z * m.y.w * m.z.x)
    ) by (nonlinear_arith);
    assert((m.w.z) * (g77 + m.x.x * m.y.z * m.z.w) == (m.w.z) * (g77) + (m.w.z) * (m.x.x * m.y.z * m.z.w)
        && (m.w.z) * (g74 - m.x.x * m.y.w * m.z.z) == (m.w.z) * (g74) - (m.w.z) * (m.x.x * m.y.w * m.z.z)
    ) by (nonlinear_arith);
    assert((m.w.z) * (m.x.w * m.y.x * m.z.z - m.x.w * m.y.z * m.z.x) == (m.w.z) * (m.x.w * m.y.x * m.z.z) - (m.w.z) * (m.x.w * m.y.z * m.z.x)
        && m.w.z * (m.x.w * m.y.x * m.z.z) == m.w.z * m.x.w * m.y.x * m.z.z
    ) by (nonlinear_arith);
    assert(m.w.z * (m.x.w * m.y.z * m.z.x) == m.w.z * m.x.w * m.y.z * m.z.x
        && m.w.z * (m.x.x * m.y.w * m.z.z) == m.w.z * m.x.x * m.y.w * m.z.z
        && m.w.z * (m.x.x * m.y.z * m.z.w) == m.w.z * m.x.x * m.y.z * m.z.w
    ) by (nonlinear_arith);
    assert(m.w.z * (m.x.z * m.y.w * m.z.x) == m.w.z * m.x.z * m.y.w * m.z.x
        && m.w.z * (m.x.z * m.y.x * m.z.w) == m.w.z * m.x.z * m.y.x * m.z.w
    ) by (nonlinear_arith);
    assert((m.x.w) * (g16 + m.w.z * m.y.x * m.z.w) == (m.x.w) * (g16) + (m.x.w) * (m.w.z * m.y.x * m.z.w)
        && (m.x.w) * (g15 - m.w.z * m.y.w * m.z.x) == (m.x.w) * (g15) - (m.x.w) * (m.w.z * m.y.w * m.z.x)
    ) by (nonlinear_arith);
    assert((m.x.w) * (g14 - m.w.x * m.y.z * m.z.w) == (m.x.w) * (g14) - (m.x.w) * (m.w.x * m.y.z * m.z.w)
        && (m.x.w) * (g13 + m.w.x * m.y.w * m.z.z) == (m.x.w) * (g13) + (m.x.w) * (m.w.x * m.y.w * m.z.z)
    ) by (nonlinear_arith);
    assert((m.x.w) * ((0 - m.w.w * m.y.x * m.z.z) + m.w.w * m.y.z * m.z.x) == (m.x.w) * ((0 - m.w.w * m.y.x * m.z.z)) + (m.x.w) * (m.w.w * m.y.z * m.z.x)
        && (m.x.w) * ((0 - m.w.w * m.y.x * m.z.z)) == (0 - m.w.w * m.x.w * m.y.x * m.z.z)
    ) by (nonlinear_arith);
    assert(m.x.w * (m.w.w * m.y.z * m.z.x) == m.w.w * m.x.w * m.y.z * m.z.x
        && m.x.w * (m.w.x * m.y.w * m.z.z) == m.w.x * m.x.w * m.y.w * m.z.z
        && m.x.w * (m.w.x * m.y.z * m.z.w) == m.w.x * m.x.w * m.y.z * m.z.w
    ) by (nonlinear_arith);
    assert(m.x.w * (m.w.z * m.y.w * m.z.x) == m.w.z * m.x.w * m.y.w * m.z.x
        && m.x.w * (m.w.z * m.y.x * m.z.w) == m.w.z * m.x.w * m.y.x * m.z.w
    ) by (nonlinear_arith);
    assert((m.y.w) * (g33 - m.w.z * m.x.x * m.z.w) == (m.y.w) * (g33) - (m.y.w) * (m.w.z * m.x.x * m.z.w)
        && (m.y.w) * (g32 + m.w.z * m.x.w * m.z.x) == (m.y.w) * (g32) + (m.y.w) * (m.w.z * m.x.w * m.z.x)
    ) by (nonlinear_arith);
    assert((m.y.w) * (g31 + m.w.x * m.x.z * m.z.w) == (m.y.w) * (g31) + (m.y.w) * (m.w.x * m.x.z * m.z.w)
        && (m.y.w) * (g30 - m.w.x * m.x.w * m.z.z) == (m.y.w) * (g30) - (m.y.w) * (m.w.x * m.x.w * m.z.z)
    ) by (nonlinear_arith);
    assert((m.y.w) * (m.w.w * m.x.x * m.z.z - m.w.w * m.x.z * m.z.x) == (m.y.w) * (m.w.w * m.x.x * m.z.z) - (m.y.w) * (m.w.w * m.x.z * m.z.x)
        && m.y.w * (m.w.w * m.x.x * m.z.z) == m.w.w * m.x.x * m.y.w * m.z.z
    ) by (nonlinear_arith);
    assert(m.y.w * (m.w.w * m.x.z * m.z.x) == m.w.w * m.x.z * m.y.w * m.z.x
        && m.y.w * (m.w.x * m.x.w * m.z.z) == m.w.x * m.x.w * m.y.w * m.z.z
        && m.y.w * (m.w.x * m.x.z * m.z.w) == m.w.x * m.x.z * m.y.w * m.z.w
    ) by (nonlinear_arith);
    assert(m.y.w * (m.w.z * m.x.w * m.z.x) == m.w.z * m.x.w * m.y.w * m.z.x
        && m.y.w * (m.w.z * m.x.x * m.z.w) == m.w.z * m.x.x * m.y.w * m.z.w
    ) by (nonlinear_arith);
    assert((m.z.w) * (g62 + m.w.z * m.x.x * m.y.w) == (m.z.w) * (g62) + (m.z.w) * (m.w.z * m.x.x * m.y.w)
        && (m.z.w) * (g61 - m.w.z * m.x.w * m.y.x) == (m.z.w) * (g61) - (m.z.w) * (m.w.z * m.x.w * m.y.x)
    ) by (nonlinear_arith);
    assert((m.z.w) * (g60 - m.w.x * m.x.z * m.y.w) == (m.z.w) * (g60) - (m.z.w) * (m.w.x * m.x.z * m.y.w)
        && (m.z.w) * (g59 + m.w.x * m.x.w * m.y.z) == (m.z.w) * (g59) + (m.z.w) * (m.w.x * m.x.w * m.y.z)
    ) by (nonlinear_arith);
    assert((m.z.w) * ((0 - m.w.w * m.x.x * m.y.z) + m.w.w * m.x.z * m.y.x) == (m.z.w) * ((0 - m.w.w * m.x.x * m.y.z)) + (m.z.w) * (m.w.w * m.x.z * m.y.x)
        && (m.z.w) * ((0 - m.w.w * m.x.x * m.y.z)) == (0 - m.w.w * m.x.x * m.y.z * m.z.w)
    ) by (nonlinear_arith);
    assert(m.z.w * (m.w.w * m.x.z * m.y.x) == m.w.w * m.x.z * m.y.x * m.z.w
        && m.z.w * (m.w.x * m.x.w * m.y.z) == m.w.x * m.x.w * m.y.z * m.z.w
        && m.z.w * (m.w.x * m.x.z * m.y.w) == m.w.x * m.x.z * m.y.w * m.z.w
    ) by (nonlinear_arith);
    assert(m.z.w * (m.w.z * m.x.w * m.y.x) == m.w.z * m.x.w * m.y.x * m.z.w
        && m.z.w * (m.w.z * m.x.x * m.y.w) == m.w.z * m.x.x * m.y.w * m.z.w
    ) by (nonlinear_arith);
    assert((m.w.w) * (g81 - m.x.z * m.y.x * m.z.w) == (m.w.w) * (g81) - (m.w.w) * (m.x.z * m.y.x * m.z.w)
        && (m.w.w) * (g80 + m.x.z * m.y.w * m.z.x) == (m.w.w) * (g80) + (m.w.w) * (m.x.z * m.y.w * m.z.x)
    ) by (nonlinear_arith);
    assert((m.w.w) * (g77 + m.x.x * m.y.z * m.z.w) == (m.w.w) * (g77) + (m.w.w) * (m.x.x * m.y.z * m.z.w)
        && (m.w.w) * (g74 - m.x.x * m.y.w * m.z.z) == (m.w.w) * (g74) - (m.w.w) * (m.x.x * m.y.w * m.z.z)
    ) by (nonlinear_arith);
    assert((m.w.w) * (m.x.w * m.y.x * m.z.z - m.x.w * m.y.z * m.z.x) == (m.w.w) * (m.x.w * m.y.x * m.z.z) - (m.w.w) * (m.x.w * m.y.z * m.z.x)
        && m.w.w * (m.x.w * m.y.x * m.z.z) == m.w.w * m.x.w * m.y.x * m.z.z
    ) by (nonlinear_arith);
    assert(m.w.w * (m.x.w * m.y.z * m.z.x) == m.w.w * m.x.w * m.y.z * m.z.x
        && m.w.w * (m.x.x * m.y.w * m.z.z) == m.w.w * m.x.x * m.y.w * m.z.z
        && m.w.w * (m.x.x * m.y.z * m.z.w) == m.w.w * m.x.x * m.y.z * m.z.w
    ) by (nonlinear_arith);
    assert(m.w.w * (m.x.z * m.y.w * m.z.x) == m.w.w * m.x.z * m.y.w * m.z.x
        && m.w.w * (m.x.z * m.y.x * m.z.w) == m.w.w * m.x.z * m.y.x * m.z.w
        && m.z.y * m.w.z == m.w.z * m.z.y
    ) by (nonlinear_arith);
    assert(((0 - m.w.y * m.z.z) + m.w.z * m.z.y) * (m.y.w) == (0 - m.w.y * m.z.z) * (m.y.w) + (m.w.z * m.z.y) * (m.y.w)
        && ((0 - m.w.y * m.z.z)) * (m.y.w) == (0 - m.w.y * m.y.w * m.z.z)
        && (m.w.z * m.z.y) * m.y.w == m.w.z * m.y.w * m.z.y
        && m.y.y * m.w.z == m.w.z * m.y.y
    ) by (nonlinear_arith);
    assert((m.w.y * m.y.z - m.w.z * m.y.y) * (m.z.w) == m.w.y * m.y.z * (m.z.w) - (m.w.z * m.y.y) * (m.z.w)
        && m.z.y * m.y.z == m.y.z * m.z.y
        && (m.y.y * m.z.z - m.y.z * m.z.y) * (m.w.w) == m.y.y * m.z.z * (m.w.w) - (m.y.z * m.z.y) * (m.w.w)
    ) by (nonlinear_arith);
    assert((m.y.y * m.z.z) * m.w.w == m.w.w * m.y.y * m.z.z
        && (m.y.z * m.z.y) * m.w.w == m.w.w * m.y.z * m.z.y
        && (m.x.x) * (g220 - m.w.z * m.y.y * m.z.w) == (m.x.x) * (g220) - (m.x.x) * (m.w.z * m.y.y * m.z.w)
    ) by (nonlinear_arith);
    assert((m.x.x) * (g219 + m.w.z * m.y.w * m.z.y) == (m.x.x) * (g219) + (m.x.x) * (m.w.z * m.y.w * m.z.y)
        && (m.x.x) * (g218 + m.w.y * m.y.z * m.z.w) == (m.x.x) * (g218) + (m.x.x) * (m.w.y * m.y.z * m.z.w)
    ) by (nonlinear_arith);
    assert((m.x.x) * (g217 - m.w.y * m.y.w * m.z.z) == (m.x.x) * (g217) - (m.x.x) * (m.w.y * m.y.w * m.z.z)
        && (m.x.x) * (m.w.w * m.y.y * m.z.z - m.w.w * m.y.z * m.z.y) == (m.x.x) * (m.w.w * m.y.y * m.z.z) - (m.x.x) * (m.w.w * m.y.z * m.z.y)
    ) by (nonlinear_arith);
    assert(m.x.x * (m.w.w * m.y.y * m.z.z) == m.w.w * m.x.x * m.y.y * m.z.z
        && m.x.x * (m.w.w * m.y.z * m.z.y) == m.w.w * m.x.x * m.y.z * m.z.y
        && m.x.x * (m.w.y * m.y.w * m.z.z) == m.w.y * m.x.x * m.y.w * m.z.z
    ) by (nonlinear_arith);
    assert(m.x.x * (m.w.y * m.y.z * m.z.w) == m.w.y * m.x.x * m.y.z * m.z.w
        && m.x.x * (m.w.z * m.y.w * m.z.y) == m.w.z * m.x.x * m.y.w * m.z.y
        && m.x.x * (m.w.z * m.y.y * m.z.w) == m.w.z * m.x.x * m.y.y * m.z.w
    ) by (nonlinear_arith);
    assert(((0 - m.w.y * m.z.z) + m.w.z * m.z.y) * (m.x.w) == (0 - m.w.y * m.z.z) * (m.x.w) + (m.w.z * m.z.y) * (m.x.w)
        && ((0 - m.w.y * m.z.z)) * (m.x.w) == (0 - m.w.y * m.x.w * m.z.z)
        && (m.w.z * m.z.y) * m.x.w == m.w.z * m.x.w * m.z.y
        && m.x.y * m.w.z == m.w.z * m.x.y
    ) by (nonlinear_arith);
    assert((m.w.y * m.x.z - m.w.z * m.x.y) * (m.z.w) == m.w.y * m.x.z * (m.z.w) - (m.w.z * m.x.y) * (m.z.w)
        && m.z.y * m.x.z == m.x.z * m.z.y
        && (m.x.y * m.z.z - m.x.z * m.z.y) * (m.w.w) == m.x.y * m.z.z * (m.w.w) - (m.x.z * m.z.y) * (m.w.w)
    ) by (nonlinear_arith);
    assert((m.x.y * m.z.z) * m.w.w == m.w.w * m.x.y * m.z.z
        && (m.x.z * m.z.y) * m.w.w == m.w.w * m.x.z * m.z.y
        && (m.y.x) * (g236 - m.w.z * m.x.y * m.z.w) == (m.y.x) * (g236) - (m.y.x) * (m.w.z * m.x.y * m.z.w)
    ) by (nonlinear_arith);
    assert((m.y.x) * (g235 + m.w.z * m.x.w * m.z.y) == (m.y.x) * (g235) + (m.y.x) * (m.w.z * m.x.w * m.z.y)
        && (m.y.x) * (g234 + m.w.y * m.x.z * m.z.w) == (m.y.x) * (g234) + (m.y.x) * (m.w.y * m.x.z * m.z.w)
    ) by (nonlinear_arith);
    assert((m.y.x) * (g233 - m.w.y * m.x.w * m.z.z) == (m.y.x) * (g233) - (m.y.x) * (m.w.y * m.x.w * m.z.z)
        && (m.y.x) * (m.w.w * m.x.y * m.z.z - m.w.w * m.x.z * m.z.y) == (m.y.x) * (m.w.w * m.x.y * m.z.z) - (m.y.x) * (m.w.w * m.x.z * m.z.y)
    ) by (nonlinear_arith);
    assert(m.y.x * (m.w.w * m.x.y * m.z.z) == m.w.w * m.x.y * m.y.x * m.z.z
        && m.y.x * (m.w.w * m.x.z * m.z.y) == m.w.w * m.x.z * m.y.x * m.z.y
        && m.y.x * (m.w.y * m.x.w * m.z.z) == m.w.y * m.x.w * m.y.x * m.z.z
    ) by (nonlinear_arith);
    assert(m.y.x * (m.w.y * m.x.z * m.z.w) == m.w.y * m.x.z * m.y.x * m.z.w
        && m.y.x * (m.w.z * m.x.w * m.z.y) == m.w.z * m.x.w * m.y.x * m.z.y
        && m.y.x * (m.w.z * m.x.y * m.z.w) == m.w.z * m.x.y * m.y.x * m.z.w
    ) by (nonlinear_arith);
    assert(((0 - m.w.y * m.y.z) + m.w.z * m.y.y) * (m.x.w) == (0 - m.w.y * m.y.z) * (m.x.w) + (m.w.z * m.y.y) * (m.x.w)
        && ((0 - m.w.y * m.y.z)) * (m.x.w) == (0 - m.w.y * m.x.w * m.y.z)
        && (m.w.z * m.y.y) * m.x.w == m.w.z * m.x.w * m.y.y
    ) by (nonlinear_arith);
    assert((m.w.y * m.x.z - m.w.z * m.x.y) * (m.y.w) == m.w.y * m.x.z * (m.y.w) - (m.w.z * m.x.y) * (m.y.w)
        && m.y.y * m.x.z == m.x.z * m.y.y
        && (m.x.y * m.y.z - m.x.z * m.y.y) * (m.w.w) == m.x.y * m.y.z * (m.w.w) - (m.x.z * m.y.y) * (m.w.w)
    ) by (nonlinear_arith);
    assert((m.x.y * m.y.z) * m.w.w == m.w.w * m.x.y * m.y.z
        && (m.x.z * m.y.y) * m.w.w == m.w.w * m.x.z * m.y.y
        && (m.z.x) * (g262 - m.w.z * m.x.y * m.y.w) == (m.z.x) * (g262) - (m.z.x) * (m.w.z * m.x.y * m.y.w)
    ) by (nonlinear_arith);
    assert((m.z.x) * (g261 + m.w.z * m.x.w * m.y.y) == (m.z.x) * (g261) + (m.z.x) * (m.w.z * m.x.w * m.y.y)
        && (m.z.x) * (g260 + m.w.y * m.x.z * m.y.w) == (m.z.x) * (g260) + (m.z.x) * (m.w.y * m.x.z * m.y.w)
    ) by (nonlinear_arith);
    assert((m.z.x) * (g259 - m.w.y * m.x.w * m.y.z) == (m.z.x) * (g259) - (m.z.x) * (m.w.y * m.x.w * m.y.z)
        && (m.z.x) * (m.w.w * m.x.y * m.y.z - m.w.w * m.x.z * m.y.y) == (m.z.x) * (m.w.w * m.x.y * m.y.z) - (m.z.x) * (m.w.w * m.x.z * m.y.y)
    ) by (nonlinear_arith);
    assert(m.z.x * (m.w.w * m.x.y * m.y.z) == m.w.w * m.x.y * m.y.z * m.z.x
        && m.z.x * (m.w.w * m.x.z * m.y.y) == m.w.w * m.x.z * m.y.y * m.z.x
        && m.z.x * (m.w.y * m.x.w * m.y.z) == m.w.y * m.x.w * m.y.z * m.z.x
    ) by (nonlinear_arith);
    assert(m.z.x * (m.w.y * m.x.z * m.y.w) == m.w.y * m.x.z * m.y.w * m.z.x
        && m.z.x * (m.w.z * m.x.w * m.y.y) == m.w.z * m.x.w * m.y.y * m.z.x
        && m.z.x * (m.w.z * m.x.y * m.y.w) == m.w.z * m.x.y * m.y.w * m.z.x
    ) by (nonlinear_arith);
    assert((m.y.y * m.z.z - m.y.z * m.z.y) * (m.x.w) == m.y.y * m.z.z * (m.x.w) - (m.y.z * m.z.y) * (m.x.w)
        && (m.y.y * m.z.z) * m.x.w == m.x.w * m.y.y * m.z.z
        && (m.y.z * m.z.y) * m.x.w == m.x.w * m.y.z * m.z.y
    ) by (nonlinear_arith);
    assert(((0 - m.x.y * m.z.z) + m.x.z * m.z.y) * (m.y.w) == (0 - m.x.y * m.z.z) * (m.y.w) + (m.x.z * m.z.y) * (m.y.w)
        && ((0 - m.x.y * m.z.z)) * (m.y.w) == (0 - m.x.y * m.y.w * m.z.z)
        && (m.x.z * m.z.y) * m.y.w == m.x.z * m.y.w * m.z.y
    ) by (nonlinear_arith);
    assert((m.x.y * m.y.z - m.x.z * m.y.y) * (m.z.w) == m.x.y * m.y.z * (m.z.w) - (m.x.z * m.y.y) * (m.z.w)
        && (m.w.x) * (g288 - m.x.z * m.y.y * m.z.w) == (m.w.x) * (g288) - (m.w.x) * (m.x.z * m.y.y * m.z.w)
    ) by (nonlinear_arith);
    assert((m.w.x) * (g287 + m.x.z * m.y.w * m.z.y) == (m.w.x) * (g287) + (m.w.x) * (m.x.z * m.y.w * m.z.y)
        && (m.w.x) * (g284 + m.x.y * m.y.z * m.z.w) == (m.w.x) * (g284) + (m.w.x) * (m.x.y * m.y.z * m.z.w)
    ) by (nonlinear_arith);
    assert((m.w.x) * (g281 - m.x.y * m.y.w * m.z.z) == (m.w.x) * (g281) - (m.w.x) * (m.x.y * m.y.w * m.z.z)
        && (m.w.x) * (m.x.w * m.y.y * m.z.z - m.x.w * m.y.z * m.z.y) == (m.w.x) * (m.x.w * m.y.y * m.z.z) - (m.w.x) * (m.x.w * m.y.z * m.z.y)
    ) by (nonlinear_arith);
    assert(m.w.x * (m.x.w * m.y.y * m.z.z) == m.w.x * m.x.w * m.y.y * m.z.z
        && m.w.x * (m.x.w * m.y.z * m.z.y) == m.w.x * m.x.w * m.y.z * m.z.y
        && m.w.x * (m.x.y * m.y.w * m.z.z) == m.w.x * m.x.y * m.y.w * m.z.z
    ) by (nonlinear_arith);
    assert(m.w.x * (m.x.y * m.y.z * m.z.w) == m.w.x * m.x.y * m.y.z * m.z.w
        && m.w.x * (m.x.z * m.y.w * m.z.y) == m.w.x * m.x.z * m.y.w * m.z.y
        && m.w.x * (m.x.z * m.y.y * m.z.w) == m.w.x * m.x.z * m.y.y * m.z.w
    ) by (nonlinear_arith);
    assert((m.z.x) * (m.w.z) == m.w.z * m.z.x);
    assert((m.w.x) * (m.z.z) == m.w.x * m.z.z);
    assert((m.w.z * m.z.x) - (m.w.x * m.z.z) == g0);
    assert((g0) * (m.y.w) == g1);
    assert((g0) * (m.y.w) == g1);
    assert((m.w.x) * (m.y.z) == m.w.x * m.y.z);
    assert((m.y.x) * (m.w.z) == m.w.z * m.y.x);
    assert((m.w.x * m.y.z) - (m.w.z * m.y.x) == g2);
    assert((g2) * (m.z.w) == g3);
    assert((g2) * (m.z.w) == g3);
    assert((g1) + (g3) == g6);
    assert((m.y.x) * (m.z.z) == m.y.x * m.z.z);
    assert((m.z.x) * (m.y.z) == m.y.z * m.z.x);
    assert((m.y.x * m.z.z) - (m.y.z * m.z.x) == g7);
    assert((g7) * (m.w.w) == g8);
    assert((g7) * (m.w.w) == g8);
    assert((g6) + (g8) == g12);
    assert(-(g12) == g17);
    assert((m.x.x) * (g13) == g18);
    assert((m.x.x) * (g14) == g19);
    assert((m.x.x) * (g15) == g20);
    assert((m.x.x) * (g16) == g21);
    assert((m.x.x) * (g17) == g22);
    assert((m.x.x) * (g17) == g22);
    assert((m.z.x) * (m.w.z) == m.w.z * m.z.x);
    assert((m.w.x) * (m.z.z) == m.w.x * m.z.z);
    assert((m.w.z * m.z.x) - (m.w.x * m.z.z) == g0);
    assert((g0) * (m.x.w) == g23);
    assert((g0) * (m.x.w) == g23);
    assert((m.w.x) * (m.x.z) == m.w.x * m.x.z);
    assert((m.x.x) * (m.w.z) == m.w.z * m.x.x);
    assert((m.w.x * m.x.z) - (m.w.z * m.x.x) == g24);
    assert((g24) * (m.z.w) == g25);
    assert((g24) * (m.z.w) == g25);
    assert((g23) + (g25) == g28);
    assert((m.x.x) * (m.z.z) == m.x.x * m.z.z);
    assert((m.z.x) * (m.x.z) == m.x.z * m.z.x);
    assert((m.x.x * m.z.z) - (m.x.z * m.z.x) == g29);
    assert((g29) * (m.w.w) == g30);
    assert((g29) * (m.w.w) == g30);
    assert((g28) + (g30) == g34);
    assert((m.y.x) * (g30) == g35);
    assert((m.y.x) * (g31) == g36);
    assert((m.y.x) * (g32) == g37);
    assert((m.y.x) * (g33) == g38);
    assert((m.y.x) * (g34) == g39);
    assert((m.y.x) * (g34) == g39);
    assert((g22) + (g39) == g46);
    assert((m.y.x) * (m.w.z) == m.w.z * m.y.x);
    assert((m.w.x) * (m.y.z) == m.w.x * m.y.z);
    assert((m.w.z * m.y.x) - (m.w.x * m.y.z) == g47);
    assert((g47) * (m.x.w) == g48);
    assert((g47) * (m.x.w) == g48);
    assert((m.w.x) * (m.x.z) == m.w.x * m.x.z);
    assert((m.x.x) * (m.w.z) == m.w.z * m.x.x);
    assert((m.w.x * m.x.z) - (m.w.z * m.x.x) == g24);
    assert((g24) * (m.y.w) == g49);
    assert((g24) * (m.y.w) == g49);
    assert((g48) + (g49) == g52);
    assert((m.x.x) * (m.y.z) == m.x.x * m.y.z);
    assert((m.y.x) * (m.x.z) == m.x.z * m.y.x);
    assert((m.x.x * m.y.z) - (m.x.z * m.y.x) == g53);
    assert((g53) * (m.w.w) == g54);
    assert((g53) * (m.w.w) == g54);
    assert((g52) + (g54) == g58);
    assert(-(g58) == g63);
    assert((m.z.x) * (g59) == g64);
    assert((m.z.x) * (g60) == g65);
    assert((m.z.x) * (g61) == g66);
    assert((m.z.x) * (g62) == g67);
    assert((m.z.x) * (g63) == g68);
    assert((m.z.x) * (g63) == g68);
    assert((g46) + (g68) == g73);
    assert((m.y.x) * (m.z.z) == m.y.x * m.z.z);
    assert((m.z.x) * (m.y.z) == m.y.z * m.z.x);
    assert((m.y.x * m.z.z) - (m.y.z * m.z.x) == g7);
    assert((g7) * (m.x.w) == g74);
    assert((g7) * (m.x.w) == g74);
    assert((m.z.x) * (m.x.z) == m.x.z * m.z.x);
    assert((m.x.x) * (m.z.z) == m.x.x * m.z.z);
    assert((m.x.z * m.z.x) - (m.x.x * m.z.z) == g75);
    assert((g75) * (m.y.w) == g76);
    assert((g75) * (m.y.w) == g76);
    assert((g74) + (g76) == g78);
    assert((m.x.x) * (m.y.z) == m.x.x * m.y.z);
    assert((m.y.x) * (m.x.z) == m.x.z * m.y.x);
    assert((m.x.x * m.y.z) - (m.x.z * m.y.x) == g53);
    assert((g53) * (m.z.w) == g79);
    assert((g53) * (m.z.w) == g79);
    assert((g78) + (g79) == g82);
    assert((m.w.x) * (g74) == g83);
    assert((m.w.x) * (g77) == g84);
    assert((m.w.x) * (g80) == g85);
    assert((m.w.x) * (g81) == g86);
    assert((m.w.x) * (g82) == g87);
    assert((m.w.x) * (g82) == g87);
    assert((g73) + (g87) == 0);
    assert((m.z.x) * (m.w.z) == m.w.z * m.z.x);
    assert((m.w.x) * (m.z.z) == m.w.x * m.z.z);
    assert((m.w.z * m.z.x) - (m.w.x * m.z.z) == g0);
    assert((g0) * (m.y.w) == g1);
    assert((m.w.x) * (m.y.z) == m.w.x * m.y.z);
    assert((m.y.x) * (m.w.z) == m.w.z * m.y.x);
    assert((m.w.x * m.y.z) - (m.w.z * m.y.x) == g2);
    assert((g2) * (m.z.w) == g3);
    assert((g1) + (g3) == g6);
    assert((m.y.x) * (m.z.z) == m.y.x * m.z.z);
    assert((m.z.x) * (m.y.z) == m.y.z * m.z.x);
    assert((m.y.x * m.z.z) - (m.y.z * m.z.x) == g7);
    assert((g7) * (m.w.w) == g8);
    assert((g6) + (g8) == g12);
    assert(-(g12) == g17);
    assert((m.x.y) * (g13) == g88);
    assert((m.x.y) * (g14) == g89);
    assert((m.x.y) * (g15) == g90);
    assert((m.x.y) * (g16) == g91);
    assert((m.x.y) * (g17) == g92);
    assert((m.x.y) * (g17) == g92);
    assert((m.z.x) * (m.w.z) == m.w.z * m.z.x);
    assert((m.w.x) * (m.z.z) == m.w.x * m.z.z);
    assert((m.w.z * m.z.x) - (m.w.x * m.z.z) == g0);
    assert((g0) * (m.x.w) == g23);
    assert((m.w.x) * (m.x.z) == m.w.x * m.x.z);
    assert((m.x.x) * (m.w.z) == m.w.z * m.x.x);
    assert((m.w.x * m.x.z) - (m.w.z * m.x.x) == g24);
    assert((g24) * (m.z.w) == g25);
    assert((g23) + (g25) == g28);
    assert((m.x.x) * (m.z.z) == m.x.x * m.z.z);
    assert((m.z.x) * (m.x.z) == m.x.z * m.z.x);
    assert((m.x.x * m.z.z) - (m.x.z * m.z.x) == g29);
    assert((g29) * (m.w.w) == g30);
    assert((g28) + (g30) == g34);
    assert((m.y.y) * (g30) == g93);
    assert((m.y.y) * (g31) == g94);
    assert((m.y.y) * (g32) == g95);
    assert((m.y.y) * (g33) == g96);
    assert((m.y.y) * (g34) == g97);
    assert((m.y.y) * (g34) == g97);
    assert((g92) + (g97) == g108);
    assert((m.y.x) * (m.w.z) == m.w.z * m.y.x);
    assert((m.w.x) * (m.y.z) == m.w.x * m.y.z);
    assert((m.w.z * m.y.x) - (m.w.x * m.y.z) == g47);
    assert((g47) * (m.x.w) == g48);
    assert((m.w.x) * (m.x.z) == m.w.x * m.x.z);
    assert((m.x.x) * (m.w.z) == m.w.z * m.x.x);
    assert((m.w.x * m.x.z) - (m.w.z * m.x.x) == g24);
    assert((g24) * (m.y.w) == g49);
    assert((g48) + (g49) == g52);
    assert((m.x.x) * (m.y.z) == m.x.x * m.y.z);
    assert((m.y.x) * (m.x.z) == m.x.z * m.y.x);
    assert((m.x.x * m.y.z) - (m.x.z * m.y.x) == g53);
    assert((g53) * (m.w.w) == g54);
    assert((g52) + (g54) == g58);
    assert(-(g58) == g63);
    assert((m.z.y) * (g59) == g109);
    assert((m.z.y) * (g60) == g110);
    assert((m.z.y) * (g61) == g111);
    assert((m.z.y) * (g62) == g112);
    assert((m.z.y) * (g63) == g113);
    assert((m.z.y) * (g63) == g113);
    assert((g108) + (g113) == g130);
    assert((m.y.x) * (m.z.z) == m.y.x * m.z.z);
    assert((m.z.x) * (m.y.z) == m.y.z * m.z.x);
    assert((m.y.x * m.z.z) - (m.y.z * m.z.x) == g7);
    assert((g7) * (m.x.w) == g74);
    assert((m.z.x) * (m.x.z) == m.x.z * m.z.x);
    assert((m.x.x) * (m.z.z) == m.x.x * m.z.z);
    assert((m.x.z * m.z.x) - (m.x.x * m.z.z) == g75);
    assert((g75) * (m.y.w) == g76);
    assert((g74) + (g76) == g78);
    assert((m.x.x) * (m.y.z) == m.x.x * m.y.z);
    assert((m.y.x) * (m.x.z) == m.x.z * m.y.x);
    assert((m.x.x * m.y.z) - (m.x.z * m.y.x) == g53);
    assert((g53) * (m.z.w) == g79);
    assert((g78) + (g79) == g82);
    assert((m.w.y) * (g74) == g131);
    assert((m.w.y) * (g77) == g132);
    assert((m.w.y) * (g80) == g133);
    assert((m.w.y) * (g81) == g134);
    assert((m.w.y) * (g82) == g135);
    assert((m.w.y) * (g82) == g135);
    assert((g130) + (g135) == g147);
    assert((m.z.x) * (m.w.z) == m.w.z * m.z.x);
    assert((m.w.x) * (m.z.z) == m.w.x * m.z.z);
    assert((m.w.z * m.z.x) - (m.w.x * m.z.z) == g0);
    assert((g0) * (m.y.w) == g1);
    assert((m.w.x) * (m.y.z) == m.w.x * m.y.z);
    assert((m.y.x) * (m.w.z) == m.w.z * m.y.x);
    assert((m.w.x * m.y.z) - (m.w.z * m.y.x) == g2);
    assert((g2) * (m.z.w) == g3);
    assert((g1) + (g3) == g6);
    assert((m.y.x) * (m.z.z) == m.y.x * m.z.z);
    assert((m.z.x) * (m.y.z) == m.y.z * m.z.x);
    assert((m.y.x * m.z.z) - (m.y.z * m.z.x) == g7);
    assert((g7) * (m.w.w) == g8);
    assert((g6) + (g8) == g12);
    assert(-(g12) == g17);
    assert((m.x.z) * (g13) == g148);
    assert((m.x.z) * (g14) == g149);
    assert((m.x.z) * (g15) == g150);
    assert((m.x.z) * (g16) == g151);
    assert((m.x.z) * (g17) == g152);
    assert((m.x.z) * (g17) == g152);
    assert((m.z.x) * (m.w.z) == m.w.z * m.z.x);
    assert((m.w.x) * (m.z.z) == m.w.x * m.z.z);
    assert((m.w.z * m.z.x) - (m.w.x * m.z.z) == g0);
    assert((g0) * (m.x.w) == g23);
    assert((m.w.x) * (m.x.z) == m.w.x * m.x.z);
    assert((m.x.x) * (m.w.z) == m.w.z * m.x.x);
    assert((m.w.x * m.x.z) - (m.w.z * m.x.x) == g24);
    assert((g24) * (m.z.w) == g25);
    assert((g23) + (g25) == g28);
    assert((m.x.x) * (m.z.z) == m.x.x * m.z.z);
    assert((m.z.x) * (m.x.z) == m.x.z * m.z.x);
    assert((m.x.x * m.z.z) - (m.x.z * m.z.x) == g29);
    assert((g29) * (m.w.w) == g30);
    assert((g28) + (g30) == g34);
    assert((m.y.z) * (g30) == g153);
    assert((m.y.z) * (g31) == g154);
    assert((m.y.z) * (g32) == g155);
    assert((m.y.z) * (g33) == g156);
    assert((m.y.z) * (g34) == g157);
    assert((m.y.z) * (g34) == g157);
    assert((g152) + (g157) == g164);
    assert((m.y.x) * (m.w.z) == m.w.z * m.y.x);
    assert((m.w.x) * (m.y.z) == m.w.x * m.y.z);
    assert((m.w.z * m.y.x) - (m.w.x * m.y.z) == g47);
    assert((g47) * (m.x.w) == g48);
    assert((m.w.x) * (m.x.z) == m.w.x * m.x.z);
    assert((m.x.x) * (m.w.z) == m.w.z * m.x.x);
    assert((m.w.x * m.x.z) - (m.w.z * m.x.x) == g24);
    assert((g24) * (m.y.w) == g49);
    assert((g48) + (g49) == g52);
    assert((m.x.x) * (m.y.z) == m.x.x * m.y.z);
    assert((m.y.x) * (m.x.z) == m.x.z * m.y.x);
    assert((m.x.x * m.y.z) - (m.x.z * m.y.x) == g53);
    assert((g53) * (m.w.w) == g54);
    assert((g52) + (g54) == g58);
    assert(-(g58) == g63);
    assert((m.z.z) * (g59) == g165);
    assert((m.z.z) * (g60) == g166);
    assert((m.z.z) * (g61) == g167);
    assert((m.z.z) * (g62) == g168);
    assert((m.z.z) * (g63) == g169);
    assert((m.z.z) * (g63) == g169);
    assert((g164) + (g169) == g174);
    assert((m.y.x) * (m.z.z) == m.y.x * m.z.z);
    assert((m.z.x) * (m.y.z) == m.y.z * m.z.x);
    assert((m.y.x * m.z.z) - (m.y.z * m.z.x) == g7);
    assert((g7) * (m.x.w) == g74);
    assert((m.z.x) * (m.x.z) == m.x.z * m.z.x);
    assert((m.x.x) * (m.z.z) == m.x.x * m.z.z);
    assert((m.x.z * m.z.x) - (m.x.x * m.z.z) == g75);
    assert((g75) * (m.y.w) == g76);
    assert((g74) + (g76) == g78);
    assert((m.x.x) * (m.y.z) == m.x.x * m.y.z);
    assert((m.y.x) * (m.x.z) == m.x.z * m.y.x);
    assert((m.x.x * m.y.z) - (m.x.z * m.y.x) == g53);
    assert((g53) * (m.z.w) == g79);
    assert((g78) + (g79) == g82);
    assert((m.w.z) * (g74) == g175);
    assert((m.w.z) * (g77) == g176);
    assert((m.w.z) * (g80) == g177);
    assert((m.w.z) * (g81) == g178);
    assert((m.w.z) * (g82) == g179);
    assert((m.w.z) * (g82) == g179);
    assert((g174) + (g179) == 0);
    assert((m.z.x) * (m.w.z) == m.w.z * m.z.x);
    assert((m.w.x) * (m.z.z) == m.w.x * m.z.z);
    assert((m.w.z * m.z.x) - (m.w.x * m.z.z) == g0);
    assert((g0) * (m.y.w) == g1);
    assert((m.w.x) * (m.y.z) == m.w.x * m.y.z);
    assert((m.y.x) * (m.w.z) == m.w.z * m.y.x);
    assert((m.w.x * m.y.z) - (m.w.z * m.y.x) == g2);
    assert((g2) * (m.z.w) == g3);
    assert((g1) + (g3) == g6);
    assert((m.y.x) * (m.z.z) == m.y.x * m.z.z);
    assert((m.z.x) * (m.y.z) == m.y.z * m.z.x);
    assert((m.y.x * m.z.z) - (m.y.z * m.z.x) == g7);
    assert((g7) * (m.w.w) == g8);
    assert((g6) + (g8) == g12);
    assert(-(g12) == g17);
    assert((m.x.w) * (g13) == g180);
    assert((m.x.w) * (g14) == g181);
    assert((m.x.w) * (g15) == g182);
    assert((m.x.w) * (g16) == g183);
    assert((m.x.w) * (g17) == g184);
    assert((m.x.w) * (g17) == g184);
    assert((m.z.x) * (m.w.z) == m.w.z * m.z.x);
    assert((m.w.x) * (m.z.z) == m.w.x * m.z.z);
    assert((m.w.z * m.z.x) - (m.w.x * m.z.z) == g0);
    assert((g0) * (m.x.w) == g23);
    assert((m.w.x) * (m.x.z) == m.w.x * m.x.z);
    assert((m.x.x) * (m.w.z) == m.w.z * m.x.x);
    assert((m.w.x * m.x.z) - (m.w.z * m.x.x) == g24);
    assert((g24) * (m.z.w) == g25);
    assert((g23) + (g25) == g28);
    assert((m.x.x) * (m.z.z) == m.x.x * m.z.z);
    assert((m.z.x) * (m.x.z) == m.x.z * m.z.x);
    assert((m.x.x * m.z.z) - (m.x.z * m.z.x) == g29);
    assert((g29) * (m.w.w) == g30);
    assert((g28) + (g30) == g34);
    assert((m.y.w) * (g30) == g185);
    assert((m.y.w) * (g31) == g186);
    assert((m.y.w) * (g32) == g187);
    assert((m.y.w) * (g33) == g188);
    assert((m.y.w) * (g34) == g189);
    assert((m.y.w) * (g34) == g189);
    assert((g184) + (g189) == g195);
    assert((m.y.x) * (m.w.z) == m.w.z * m.y.x);
    assert((m.w.x) * (m.y.z) == m.w.x * m.y.z);
    assert((m.w.z * m.y.x) - (m.w.x * m.y.z) == g47);
    assert((g47) * (m.x.w) == g48);
    assert((m.w.x) * (m.x.z) == m.w.x * m.x.z);
    assert((m.x.x) * (m.w.z) == m.w.z * m.x.x);
    assert((m.w.x * m.x.z) - (m.w.z * m.x.x) == g24);
    assert((g24) * (m.y.w) == g49);
    assert((g48) + (g49) == g52);
    assert((m.x.x) * (m.y.z) == m.x.x * m.y.z);
    assert((m.y.x) * (m.x.z) == m.x.z * m.y.x);
    assert((m.x.x * m.y.z) - (m.x.z * m.y.x) == g53);
    assert((g53) * (m.w.w) == g54);
    assert((g52) + (g54) == g58);
    assert(-(g58) == g63);
    assert((m.z.w) * (g59) == g196);
    assert((m.z.w) * (g60) == g197);
    assert((m.z.w) * (g61) == g198);
    assert((m.z.w) * (g62) == g199);
    assert((m.z.w) * (g63) == g200);
    assert((m.z.w) * (g63) == g200);
    assert((g195) + (g200) == g203);
    assert((m.y.x) * (m.z.z) == m.y.x * m.z.z);
    assert((m.z.x) * (m.y.z) == m.y.z * m.z.x);
    assert((m.y.x * m.z.z) - (m.y.z * m.z.x) == g7);
    assert((g7) * (m.x.w) == g74);
    assert((m.z.x) * (m.x.z) == m.x.z * m.z.x);
    assert((m.x.x) * (m.z.z) == m.x.x * m.z.z);
    assert((m.x.z * m.z.x) - (m.x.x * m.z.z) == g75);
    assert((g75) * (m.y.w) == g76);
    assert((g74) + (g76) == g78);
    assert((m.x.x) * (m.y.z) == m.x.x * m.y.z);
    assert((m.y.x) * (m.x.z) == m.x.z * m.y.x);
    assert((m.x.x * m.y.z) - (m.x.z * m.y.x) == g53);
    assert((g53) * (m.z.w) == g79);
    assert((g78) + (g79) == g82);
    assert((m.w.w) * (g74) == g204);
    assert((m.w.w) * (g77) == g205);
    assert((m.w.w) * (g80) == g206);
    assert((m.w.w) * (g81) == g207);
    assert((m.w.w) * (g82) == g208);
    assert((m.w.w) * (g82) == g208);
    assert((g203) + (g208) == 0);
    assert((m.z.y) * (m.w.z) == m.w.z * m.z.y);
    assert((m.w.y) * (m.z.z) == m.w.y * m.z.z);
    assert((m.w.z * m.z.y) - (m.w.y * m.z.z) == g209);
    assert((g209) * (m.y.w) == g210);
    assert((g209) * (m.y.w) == g210);
    assert((m.w.y) * (m.y.z) == m.w.y * m.y.z);
    assert((m.y.y) * (m.w.z) == m.w.z * m.y.y);
    assert((m.w.y * m.y.z) - (m.w.z * m.y.y) == g211);
    assert((g211) * (m.z.w) == g212);
    assert((g211) * (m.z.w) == g212);
    assert((g210) + (g212) == g215);
    assert((m.y.y) * (m.z.z) == m.y.y * m.z.z);
    assert((m.z.y) * (m.y.z) == m.y.z * m.z.y);
    assert((m.y.y * m.z.z) - (m.y.z * m.z.y) == g216);
    assert((g216) * (m.w.w) == g217);
    assert((g216) * (m.w.w) == g217);
    assert((g215) + (g217) == g221);
    assert((m.x.x) * (g217) == g114);
    assert((m.x.x) * (g218) == g222);
    assert((m.x.x) * (g219) == g223);
    assert((m.x.x) * (g220) == g224);
    assert((m.x.x) * (g221) == g225);
    assert((m.x.x) * (g221) == g225);
    assert((m.z.y) * (m.w.z) == m.w.z * m.z.y);
    assert((m.w.y) * (m.z.z) == m.w.y * m.z.z);
    assert((m.w.z * m.z.y) - (m.w.y * m.z.z) == g209);
    assert((g209) * (m.x.w) == g226);
    assert((g209) * (m.x.w) == g226);
    assert((m.w.y) * (m.x.z) == m.w.y * m.x.z);
    assert((m.x.y) * (m.w.z) == m.w.z * m.x.y);
    assert((m.w.y * m.x.z) - (m.w.z * m.x.y) == g227);
    assert((g227) * (m.z.w) == g228);
    assert((g227) * (m.z.w) == g228);
    assert((g226) + (g228) == g231);
    assert((m.x.y) * (m.z.z) == m.x.y * m.z.z);
    assert((m.z.y) * (m.x.z) == m.x.z * m.z.y);
    assert((m.x.y * m.z.z) - (m.x.z * m.z.y) == g232);
    assert((g232) * (m.w.w) == g233);
    assert((g232) * (m.w.w) == g233);
    assert((g231) + (g233) == g237);
    assert((m.y.x) * (g233) == g238);
    assert((m.y.x) * (g234) == g239);
    assert((m.y.x) * (g235) == g240);
    assert((m.y.x) * (g236) == g241);
    assert((m.y.x) * (g237) == g242);
    assert((m.y.x) * (g237) == g242);
    assert((g225) - (g242) == g251);
    assert((m.y.y) * (m.w.z) == m.w.z * m.y.y);
    assert((m.w.y) * (m.y.z) == m.w.y * m.y.z);
    assert((m.w.z * m.y.y) - (m.w.y * m.y.z) == g252);
    assert((g252) * (m.x.w) == g253);
    assert((g252) * (m.x.w) == g253);
    assert((m.w.y) * (m.x.z) == m.w.y * m.x.z);
    assert((m.x.y) * (m.w.z) == m.w.z * m.x.y);
    assert((m.w.y * m.x.z) - (m.w.z * m.x.y) == g227);
    assert((g227) * (m.y.w) == g254);
    assert((g227) * (m.y.w) == g254);
    assert((g253) + (g254) == g257);
    assert((m.x.y) * (m.y.z) == m.x.y * m.y.z);
    assert((m.y.y) * (m.x.z) == m.x.z * m.y.y);
    assert((m.x.y * m.y.z) - (m.x.z * m.y.y) == g258);
    assert((g258) * (m.w.w) == g259);
    assert((g258) * (m.w.w) == g259);
    assert((g257) + (g259) == g263);
    assert((m.z.x) * (g259) == g264);
    assert((m.z.x) * (g260) == g265);
    assert((m.z.x) * (g261) == g266);
    assert((m.z.x) * (g262) == g267);
    assert((m.z.x) * (g263) == g268);
    assert((m.z.x) * (g263) == g268);
    assert((g251) + (g268) == g280);
    assert((m.y.y) * (m.z.z) == m.y.y * m.z.z);
    assert((m.z.y) * (m.y.z) == m.y.z * m.z.y);
    assert((m.y.y * m.z.z) - (m.y.z * m.z.y) == g216);
    assert((g216) * (m.x.w) == g281);
    assert((g216) * (m.x.w) == g281);
    assert((m.z.y) * (m.x.z) == m.x.z * m.z.y);
    assert((m.x.y) * (m.z.z) == m.x.y * m.z.z);
    assert((m.x.z * m.z.y) - (m.x.y * m.z.z) == g282);
    assert((g282) * (m.y.w) == g283);
    assert((g282) * (m.y.w) == g283);
    assert((g281) + (g283) == g285);
    assert((m.x.y) * (m.y.z) == m.x.y * m.y.z);
    assert((m.y.y) * (m.x.z) == m.x.z * m.y.y);
    assert((m.x.y * m.y.z) - (m.x.z * m.y.y) == g258);
    assert((g258) * (m.z.w) == g286);
    assert((g258) * (m.z.w) == g286);
    assert((g285) + (g286) == g289);
    assert((m.w.x) * (g281) == g290);
    assert((m.w.x) * (g284) == g291);
    assert((m.w.x) * (g287) == g292);
    assert((m.w.x) * (g288) == g293);
    assert((m.w.x) * (g289) == g294);
    assert((m.w.x) * (g289) == g294);
    assert((g280) - (g294) == g147);
}

proof fn adj4_col_z(m: M4)
    ensures
        m4_vec_mul(m, m4_adjugate(m).z).x == 0,
        m4_vec_mul(m, m4_adjugate(m).z).y == 0,
        m4_vec_mul(m, m4_adjugate(m).z).z == m4_det(m).n,
        m4_vec_mul(m, m4_adjugate(m).z).w == 0,
{
    let g0: int = (0 - m.w.x * m.z.y) + m.w.y * m.z.x;
    let g1: int = (0 - m.w.x * m.y.w * m.z.y) + m.w.y * m.y.w * m.z.x;
    let g2: int = m.w.x * m.y.y - m.w.y * m.y.x;
    let g3: int = m.w.x * m.y.y * m.z.w - m.w.y * m.y.x * m.z.w;
    let g4: int = (0 - m.w.x * m.y.w * m.z.y) + m.w.x * m.y.y * m.z.w;
    let g5: int = g4 + m.w.y * m.y.w * m.z.x;
    let g6: int = g5 - m.w.y * m.y.x * m.z.w;
    let g7: int = m.y.x * m.z.y - m.y.y * m.z.x;
    let g8: int = m.w.w * m.y.x * m.z.y - m.w.w * m.y.y * m.z.x;
    let g9: int = g8 - m.w.x * m.y.w * m.z.y;
    let g10: int = g9 + m.w.x * m.y.y * m.z.w;
    let g11: int = g10 + m.w.y * m.y.w * m.z.x;
    let g12: int = g11 - m.w.y * m.y.x * m.z.w;
    let g13: int = m.w.w * m.x.x * m.y.x * m.z.y - m.w.w * m.x.x * m.y.y * m.z.x;
    let g14: int = g13 - m.w.x * m.x.x * m.y.w * m.z.y;
    let g15: int = g14 + m.w.x * m.x.x * m.y.y * m.z.w;
    let g16: int = g15 + m.w.y * m.x.x * m.y.w * m.z.x;
    let g17: int = g16 - m.w.y * m.x.x * m.y.x * m.z.w;
    let g18: int = (0 - m.w.x * m.x.w * m.z.y) + m.w.y * m.x.w * m.z.x;
    let g19: int = m.w.x * m.x.y - m.w.y * m.x.x;
    let g20: int = m.w.x * m.x.y * m.z.w - m.w.y * m.x.x * m.z.w;
    let g21: int = (0 - m.w.x * m.x.w * m.z.y) + m.w.x * m.x.y * m.z.w;
    let g22: int = g21 + m.w.y * m.x.w * m.z.x;
    let g23: int = g22 - m.w.y * m.x.x * m.z.w;
    let g24: int = m.x.x * m.z.y - m.x.y * m.z.x;
    let g25: int = m.w.w * m.x.x * m.z.y - m.w.w * m.x.y * m.z.x;
    let g26: int = g25 - m.w.x * m.x.w * m.z.y;
    let g27: int = g26 + m.w.x * m.x.y * m.z.w;
    let g28: int = g27 + m.w.y * m.x.w * m.z.x;
    let g29: int = g28 - m.w.y * m.x.x * m.z.w;
    let g30: int = (0 - m.w.w * m.x.x * m.z.y) + m.w.w * m.x.y * m.z.x;
    let g31: int = g30 + m.w.x * m.x.w * m.z.y;
    let g32: int = g31 - m.w.x * m.x.y * m.z.w;
    let g33: int = g32 - m.w.y * m.x.w * m.z.x;
    let g34: int = g33 + m.w.y * m.x.x * m.z.w;
    let g35: int = (0 - m.w.w * m.x.x * m.y.x * m.z.y) + m.w.w * m.x.y * m.y.x * m.z.x;
    let g36: int = g35 + m.w.x * m.x.w * m.y.x * m.z.y;
    let g37: int = g36 - m.w.x * m.x.y * m.y.x * m.z.w;
    let g38: int = g37 - m.w.y * m.x.w * m.y.x * m.z.x;
    let g39: int = g38 + m.w.y * m.x.x * m.y.x * m.z.w;
    let g40: int = (0 - m.w.w * m.x.x * m.y.y * m.z.x) + m.w.w * m.x.y * m.y.x * m.z.x;
    let g41: int = g40 + m.w.x * m.x.w * m.y.x * m.z.y;
    let g42: int = g41 - m.w.x * m.x.x * m.y.w * m.z.y;
    let g43: int = g42 + m.w.x * m.x.x * m.y.y * m.z.w;
    let g44: int = g43 - m.w.x * m.x.y * m.y.x * m.z.w;
    let g45: int = g44 - m.w.y * m.x.w * m.y.x * m.z.x;
    let g46: int = g45 + m.w.y * m.x.x * m.y.w * m.z.x;
    let g47: int = (0 - m.w.x * m.y.y) + m.w.y * m.y.x;
    let g48: int = (0 - m.w.x * m.x.w * m.y.y) + m.w.y * m.x.w * m.y.x;
    let g49: int = m.w.x * m.x.y * m.y.w - m.w.y * m.x.x * m.y.w;
    let g50: int = (0 - m.w.x * m.x.w * m.y.y) + m.w.x * m.x.y * m.y.w;
    let g51: int = g50 + m.w.y * m.x.w * m.y.x;
    let g52: int = g51 - m.w.y * m.x.x * m.y.w;
    let g53: int = m.x.x * m.y.y - m.x.y * m.y.x;
    let g54: int = m.w.w * m.x.x * m.y.y - m.w.w * m.x.y * m.y.x;
    let g55: int = g54 - m.w.x * m.x.w * m.y.y;
    let g56: int = g55 + m.w.x * m.x.y * m.y.w;
    let g57: int = g56 + m.w.y * m.x.w * m.y.x;
    let g58: int = g57 - m.w.y * m.x.x * m.y.w;
    let g59: int = m.w.w * m.x.x * m.y.y * m.z.x - m.w.w * m.x.y * m.y.x * m.z.x;
    let g60: int = g59 - m.w.x * m.x.w * m.y.y * m.z.x;
    let g61: int = g60 + m.w.x * m.x.y * m.y.w * m.z.x;
    let g62: int = g61 + m.w.y * m.x.w * m.y.x * m.z.x;
    let g63: int = g62 - m.w.y * m.x.x * m.y.w * m.z.x;
    let g64: int = m.w.x * m.x.w * m.y.x * m.z.y - m.w.x * m.x.w * m.y.y * m.z.x;
    let g65: int = g64 - m.w.x * m.x.x * m.y.w * m.z.y;
    let g66: int = g65 + m.w.x * m.x.x * m.y.y * m.z.w;
    let g67: int = g66 + m.w.x * m.x.y * m.y.w * m.z.x;
    let g68: int = g67 - m.w.x * m.x.y * m.y.x * m.z.w;
    let g69: int = m.x.w * m.y.x * m.z.y - m.x.w * m.y.y * m.z.x;
    let g70: int = (0 - m.x.x * m.z.y) + m.x.y * m.z.x;
    let g71: int = (0 - m.x.x * m.y.w * m.z.y) + m.x.y * m.y.w * m.z.x;
    let g72: int = g69 - m.x.x * m.y.w * m.z.y;
    let g73: int = g72 + m.x.y * m.y.w * m.z.x;
    let g74: int = m.x.x * m.y.y * m.z.w - m.x.y * m.y.x * m.z.w;
    let g75: int = g72 + m.x.x * m.y.y * m.z.w;
    let g76: int = g75 + m.x.y * m.y.w * m.z.x;
    let g77: int = g76 - m.x.y * m.y.x * m.z.w;
    let g78: int = (0 - m.x.w * m.y.x * m.z.y) + m.x.w * m.y.y * m.z.x;
    let g79: int = g78 + m.x.x * m.y.w * m.z.y;
    let g80: int = g79 - m.x.x * m.y.y * m.z.w;
    let g81: int = g80 - m.x.y * m.y.w * m.z.x;
    let g82: int = g81 + m.x.y * m.y.x * m.z.w;
    let g83: int = (0 - m.w.x * m.x.w * m.y.x * m.z.y) + m.w.x * m.x.w * m.y.y * m.z.x;
    let g84: int = g83 + m.w.x * m.x.x * m.y.w * m.z.y;
    let g85: int = g84 - m.w.x * m.x.x * m.y.y * m.z.w;
    let g86: int = g85 - m.w.x * m.x.y * m.y.w * m.z.x;
    let g87: int = g86 + m.w.x * m.x.y * m.y.x * m.z.w;
    let g88: int = m.w.w * m.x.y * m.y.x * m.z.y - m.w.w * m.x.y * m.y.y * m.z.x;
    let g89: int = g88 - m.w.x * m.x.y * m.y.w * m.z.y;
    let g90: int = g89 + m.w.x * m.x.y * m.y.y * m.z.w;
    let g91: int = g90 + m.w.y * m.x.y * m.y.w * m.z.x;
    let g92: int = g91 - m.w.y * m.x.y * m.y.x * m.z.w;
    let g93: int = (0 - m.w.w * m.x.x * m.y.y * m.z.y) + m.w.w * m.x.y * m.y.y * m.z.x;
    let g94: int = g93 + m.w.x * m.x.w * m.y.y * m.z.y;
    let g95: int = g94 - m.w.x * m.x.y * m.y.y * m.z.w;
    let g96: int = g95 - m.w.y * m.x.w * m.y.y * m.z.x;
    let g97: int = g96 + m.w.y * m.x.x * m.y.y * m.z.w;
    let g98: int = (0 - m.w.w * m.x.x * m.y.y * m.z.y) + m.w.w * m.x.y * m.y.x * m.z.y;
    let g99: int = g98 + m.w.x * m.x.w * m.y.y * m.z.y;
    let g100: int = g99 - m.w.x * m.x.y * m.y.w * m.z.y;
    let g101: int = g100 - m.w.y * m.x.w * m.y.y * m.z.x;
    let g102: int = g101 + m.w.y * m.x.x * m.y.y * m.z.w;
    let g103: int = g102 + m.w.y * m.x.y * m.y.w * m.z.x;
    let g104: int = g103 - m.w.y * m.x.y * m.y.x * m.z.w;
    let g105: int = m.w.w * m.x.x * m.y.y * m.z.y - m.w.w * m.x.y * m.y.x * m.z.y;
    let g106: int = g105 - m.w.x * m.x.w * m.y.y * m.z.y;
    let g107: int = g106 + m.w.x * m.x.y * m.y.w * m.z.y;
    let g108: int = g107 + m.w.y * m.x.w * m.y.x * m.z.y;
    let g109: int = g108 - m.w.y * m.x.x * m.y.w * m.z.y;
    let g110: int = m.w.y * m.x.w * m.y.x * m.z.y - m.w.y * m.x.w * m.y.y * m.z.x;
    let g111: int = g110 - m.w.y * m.x.x * m.y.w * m.z.y;
    let g112: int = g111 + m.w.y * m.x.x * m.y.y * m.z.w;
    let g113: int = g112 + m.w.y * m.x.y * m.y.w * m.z.x;
    let g114: int = g113 - m.w.y * m.x.y * m.y.x * m.z.w;
    let g115: int = (0 - m.w.y * m.x.w * m.y.x * m.z.y) + m.w.y * m.x.w * m.y.y * m.z.x;
    let g116: int = g115 + m.w.y * m.x.x * m.y.w * m.z.y;
    let g117: int = g116 - m.w.y * m.x.x * m.y.y * m.z.w;
    let g118: int = g117 - m.w.y * m.x.y * m.y.w * m.z.x;
    let g119: int = g118 + m.w.y * m.x.y * m.y.x * m.z.w;
    let g120: int = m.w.w * m.x.z * m.y.x * m.z.y - m.w.w * m.x.z * m.y.y * m.z.x;
    let g121: int = g120 - m.w.x * m.x.z * m.y.w * m.z.y;
    let g122: int = g121 + m.w.x * m.x.z * m.y.y * m.z.w;
    let g123: int = g122 + m.w.y * m.x.z * m.y.w * m.z.x;
    let g124: int = g123 - m.w.y * m.x.z * m.y.x * m.z.w;
    let g125: int = (0 - m.w.w * m.x.x * m.y.z * m.z.y) + m.w.w * m.x.y * m.y.z * m.z.x;
    let g126: int = g125 + m.w.x * m.x.w * m.y.z * m.z.y;
    let g127: int = g126 - m.w.x * m.x.y * m.y.z * m.z.w;
    let g128: int = g127 - m.w.y * m.x.w * m.y.z * m.z.x;
    let g129: int = g128 + m.w.y * m.x.x * m.y.z * m.z.w;
    let g130: int = g125 + m.w.w * m.x.z * m.y.x * m.z.y;
    let g131: int = g130 - m.w.w * m.x.z * m.y.y * m.z.x;
    let g132: int = g131 + m.w.x * m.x.w * m.y.z * m.z.y;
    let g133: int = g132 - m.w.x * m.x.y * m.y.z * m.z.w;
    let g134: int = g133 - m.w.x * m.x.z * m.y.w * m.z.y;
    let g135: int = g134 + m.w.x * m.x.z * m.y.y * m.z.w;
    let g136: int = g135 - m.w.y * m.x.w * m.y.z * m.z.x;
    let g137: int = g136 + m.w.y * m.x.x * m.y.z * m.z.w;
    let g138: int = g137 + m.w.y * m.x.z * m.y.w * m.z.x;
    let g139: int = g138 - m.w.y * m.x.z * m.y.x * m.z.w;
    let g140: int = m.w.w * m.x.x * m.y.y * m.z.z - m.w.w * m.x.y * m.y.x * m.z.z;
    let g141: int = g140 - m.w.x * m.x.w * m.y.y * m.z.z;
    let g142: int = g141 + m.w.x * m.x.y * m.y.w * m.z.z;
    let g143: int = g142 + m.w.y * m.x.w * m.y.x * m.z.z;
    let g144: int = g143 - m.w.y * m.x.x * m.y.w * m.z.z;
    let g145: int = m.w.w * m.x.x * m.y.y * m.z.z - m.w.w * m.x.x * m.y.z * m.z.y;
    let g146: int = g145 - m.w.w * m.x.y * m.y.x * m.z.z;
    let g147: int = g146 + m.w.w * m.x.y * m.y.z * m.z.x;
    let g148: int = g147 + m.w.w * m.x.z * m.y.x * m.z.y;
    let g149: int = g148 - m.w.w * m.x.z * m.y.y * m.z.x;
    let g150: int = g149 - m.w.x * m.x.w * m.y.y * m.z.z;
    let g151: int = g150 + m.w.x * m.x.w * m.y.z * m.z.y;
    let g152: int = g151 + m.w.x * m.x.y * m.y.w * m.z.z;
    let g153: int = g152 - m.w.x * m.x.y * m.y.z * m.z.w;
    let g154: int = g153 - m.w.x * m.x.z * m.y.w * m.z.y;
    let g155: int = g154 + m.w.x * m.x.z * m.y.y * m.z.w;
    let g156: int = g155 + m.w.y * m.x.w * m.y.x * m.z.z;
    let g157: int = g156 - m.w.y * m.x.w * m.y.z * m.z.x;
    let g158: int = g157 - m.w.y * m.x.x * m.y.w * m.z.z;
    let g159: int = g158 + m.w.y * m.x.x * m.y.z * m.z.w;
    let g160: int = g159 + m.w.y * m.x.z * m.y.w * m.z.x;
    let g161: int = g160 - m.w.y * m.x.z * m.y.x * m.z.w;
    let g162: int = (0 - m.w.z * m.x.w * m.y.x * m.z.y) + m.w.z * m.x.w * m.y.y * m.z.x;
    let g163: int = g162 + m.w.z * m.x.x * m.y.w * m.z.y;
    let g164: int = g163 - m.w.z * m.x.x * m.y.y * m.z.w;
    let g165: int = g164 - m.w.z * m.x.y * m.y.w * m.z.x;
    let g166: int = g165 + m.w.z * m.x.y * m.y.x * m.z.w;
    let g167: int = g161 - m.w.z * m.x.w * m.y.x * m.z.y;
    let g168: int = g167 + m.w.z * m.x.w * m.y.y * m.z.x;
    let g169: int = g168 + m.w.z * m.x.x * m.y.w * m.z.y;
    let g170: int = g169 - m.w.z * m.x.x * m.y.y * m.z.w;
    let g171: int = g170 - m.w.z * m.x.y * m.y.w * m.z.x;
    let g172: int = g171 + m.w.z * m.x.y * m.y.x * m.z.w;
    let g173: int = m.w.w * m.x.w * m.y.x * m.z.y - m.w.w * m.x.w * m.y.y * m.z.x;
    let g174: int = g173 - m.w.x * m.x.w * m.y.w * m.z.y;
    let g175: int = g174 + m.w.x * m.x.w * m.y.y * m.z.w;
    let g176: int = g175 + m.w.y * m.x.w * m.y.w * m.z.x;
    let g177: int = g176 - m.w.y * m.x.w * m.y.x * m.z.w;
    let g178: int = (0 - m.w.w * m.x.x * m.y.w * m.z.y) + m.w.w * m.x.y * m.y.w * m.z.x;
    let g179: int = g178 + m.w.x * m.x.w * m.y.w * m.z.y;
    let g180: int = g179 - m.w.x * m.x.y * m.y.w * m.z.w;
    let g181: int = g180 - m.w.y * m.x.w * m.y.w * m.z.x;
    let g182: int = g181 + m.w.y * m.x.x * m.y.w * m.z.w;
    let g183: int = g173 - m.w.w * m.x.x * m.y.w * m.z.y;
    let g184: int = g183 + m.w.w * m.x.y * m.y.w * m.z.x;
    let g185: int = g184 + m.w.x * m.x.w * m.y.y * m.z.w;
    let g186: int = g185 - m.w.x * m.x.y * m.y.w * m.z.w;
    let g187: int = g186 - m.w.y * m.x.w * m.y.x * m.z.w;
    let g188: int = g187 + m.w.y * m.x.x * m.y.w * m.z.w;
    let g189: int = m.w.w * m.x.x * m.y.y * m.z.w - m.w.w * m.x.y * m.y.x * m.z.w;
    let g190: int = g189 - m.w.x * m.x.w * m.y.y * m.z.w;
    let g191: int = g190 + m.w.x * m.x.y * m.y.w * m.z.w;
    let g192: int = g191 + m.w.y * m.x.w * m.y.x * m.z.w;
    let g193: int = g192 - m.w.y * m.x.x * m.y.w * m.z.w;
    let g194: int = g183 + m.w.w * m.x.x * m.y.y * m.z.w;
    let g195: int = g194 + m.w.w * m.x.y * m.y.w * m.z.x;
    let g196: int = g195 - m.w.w * m.x.y * m.y.x * m.z.w;
    let g197: int = (0 - m.w.w * m.x.w * m.y.x * m.z.y) + m.w.w * m.x.w * m.y.y * m.z.x;
    let g198: int = g197 + m.w.w * m.x.x * m.y.w * m.z.y;
    let g199: int = g198 - m.w.w * m.x.x * m.y.y * m.z.w;
    let g200: int = g199 - m.w.w * m.x.y * m.y.w * m.z.x;
    let g201: int = g200 + m.w.w * m.x.y * m.y.x * m.z.w;
    let g202: int = (0 - m.w.y * m.z.z) + m.w.z * m.z.y;
    let g203: int = (0 - m.w.y * m.y.w * m.z.z) + m.w.z * m.y.w * m.z.y;
    let g204: int = m.w.y * m.y.z - m.w.z * m.y.y;
    let g205: int = m.w.y * m.y.z * m.z.w - m.w.z * m.y.y * m.z.w;
    let g206: int = (0 - m.w.y * m.y.w * m.z.z) + m.w.y * m.y.z * m.z.w;
    let g207: int = g206 + m.w.z * m.y.w * m.z.y;
    let g208: int = g207 - m.w.z * m.y.y * m.z.w;
    let g209: int = m.y.y * m.z.z - m.y.z * m.z.y;
    let g210: int = m.w.w * m.y.y * m.z.z - m.w.w * m.y.z * m.z.y;
    let g211: int = g210 - m.w.y * m.y.w * m.z.z;
    let g212: int = g211 + m.w.y * m.y.z * m.z.w;
    let g213: int = g212 + m.w.z * m.y.w * m.z.y;
    let g214: int = g213 - m.w.z * m.y.y * m.z.w;
    let g215: int = g145 - m.w.y * m.x.x * m.y.w * m.z.z;
    let g216: int = g215 + m.w.y * m.x.x * m.y.z * m.z.w;
    let g217: int = g216 + m.w.z * m.x.x * m.y.w * m.z.y;
    let g218: int = g217 - m.w.z * m.x.x * m.y.y * m.z.w;
    let g219: int = (0 - m.w.y * m.x.w * m.z.z) + m.w.z * m.x.w * m.z.y;
    let g220: int = m.w.y * m.x.z - m.w.z * m.x.y;
    let g221: int = m.w.y * m.x.z * m.z.w - m.w.z * m.x.y * m.z.w;
    let g222: int = (0 - m.w.y * m.x.w * m.z.z) + m.w.y * m.x.z * m.z.w;
    let g223: int = g222 + m.w.z * m.x.w * m.z.y;
    let g224: int = g223 - m.w.z * m.x.y * m.z.w;
    let g225: int = m.x.y * m.z.z - m.x.z * m.z.y;
    let g226: int = m.w.w * m.x.y * m.z.z - m.w.w * m.x.z * m.z.y;
    let g227: int = g226 - m.w.y * m.x.w * m.z.z;
    let g228: int = g227 + m.w.y * m.x.z * m.z.w;
    let g229: int = g228 + m.w.z * m.x.w * m.z.y;
    let g230: int = g229 - m.w.z * m.x.y * m.z.w;
    let g231: int = m.w.w * m.x.y * m.y.x * m.z.z - m.w.w * m.x.z * m.y.x * m.z.y;
    let g232: int = g231 - m.w.y * m.x.w * m.y.x * m.z.z;
    let g233: int = g232 + m.w.y * m.x.z * m.y.x * m.z.w;
    let g234: int = g233 + m.w.z * m.x.w * m.y.x * m.z.y;
    let g235: int = g234 - m.w.z * m.x.y * m.y.x * m.z.w;
    let g236: int = g146 + m.w.w * m.x.z * m.y.x * m.z.y;
    let g237: int = g236 + m.w.y * m.x.w * m.y.x * m.z.z;
    let g238: int = g237 - m.w.y * m.x.x * m.y.w * m.z.z;
    let g239: int = g238 + m.w.y * m.x.x * m.y.z * m.z.w;
    let g240: int = g239 - m.w.y * m.x.z * m.y.x * m.z.w;
    let g241: int = g240 - m.w.z * m.x.w * m.y.x * m.z.y;
    let g242: int = g241 + m.w.z * m.x.x * m.y.w * m.z.y;
    let g243: int = g242 - m.w.z * m.x.x * m.y.y * m.z.w;
    let g244: int = g243 + m.w.z * m.x.y * m.y.x * m.z.w;
    let g245: int = (0 - m.w.y * m.y.z) + m.w.z * m.y.y;
    let g246: int = (0 - m.w.y * m.x.w * m.y.z) + m.w.z * m.x.w * m.y.y;
    let g247: int = m.w.y * m.x.z * m.y.w - m.w.z * m.x.y * m.y.w;
    let g248: int = (0 - m.w.y * m.x.w * m.y.z) + m.w.y * m.x.z * m.y.w;
    let g249: int = g248 + m.w.z * m.x.w * m.y.y;
    let g250: int = g249 - m.w.z * m.x.y * m.y.w;
    let g251: int = m.x.y * m.y.z - m.x.z * m.y.y;
    let g252: int = m.w.w * m.x.y * m.y.z - m.w.w * m.x.z * m.y.y;
    let g253: int = g252 - m.w.y * m.x.w * m.y.z;
    let g254: int = g253 + m.w.y * m.x.z * m.y.w;
    let g255: int = g254 + m.w.z * m.x.w * m.y.y;
    let g256: int = g255 - m.w.z * m.x.y * m.y.w;
    let g257: int = m.w.w * m.x.y * m.y.z * m.z.x - m.w.w * m.x.z * m.y.y * m.z.x;
    let g258: int = g257 - m.w.y * m.x.w * m.y.z * m.z.x;
    let g259: int = g258 + m.w.y * m.x.z * m.y.w * m.z.x;
    let g260: int = g259 + m.w.z * m.x.w * m.y.y * m.z.x;
    let g261: int = g260 - m.w.z * m.x.y * m.y.w * m.z.x;
    let g262: int = g149 + m.w.y * m.x.w * m.y.x * m.z.z;
    let g263: int = g262 - m.w.y * m.x.w * m.y.z * m.z.x;
    let g264: int = g263 - m.w.y * m.x.x * m.y.w * m.z.z;
    let g265: int = g264 + m.w.y * m.x.x * m.y.z * m.z.w;
    let g266: int = g265 + m.w.y * m.x.z * m.y.w * m.z.x;
    let g267: int = g266 - m.w.y * m.x.z * m.y.x * m.z.w;
    let g268: int = g267 - m.w.z * m.x.w * m.y.x * m.z.y;
    let g269: int = g268 + m.w.z * m.x.w * m.y.y * m.z.x;
    let g270: int = g269 + m.w.z * m.x.x * m.y.w * m.z.y;
    let g271: int = g270 - m.w.z * m.x.x * m.y.y * m.z.w;
    let g272: int = g271 - m.w.z * m.x.y * m.y.w * m.z.x;
    let g273: int = g272 + m.w.z * m.x.y * m.y.x * m.z.w;
    let g274: int = m.x.w * m.y.y * m.z.z - m.x.w * m.y.z * m.z.y;
    let g275: int = (0 - m.x.y * m.z.z) + m.x.z * m.z.y;
    let g276: int = (0 - m.x.y * m.y.w * m.z.z) + m.x.z * m.y.w * m.z.y;
    let g277: int = g274 - m.x.y * m.y.w * m.z.z;
    let g278: int = g277 + m.x.z * m.y.w * m.z.y;
    let g279: int = m.x.y * m.y.z * m.z.w - m.x.z * m.y.y * m.z.w;
    let g280: int = g277 + m.x.y * m.y.z * m.z.w;
    let g281: int = g280 + m.x.z * m.y.w * m.z.y;
    let g282: int = g281 - m.x.z * m.y.y * m.z.w;
    let g283: int = m.w.x * m.x.w * m.y.y * m.z.z - m.w.x * m.x.w * m.y.z * m.z.y;
    let g284: int = g283 - m.w.x * m.x.y * m.y.w * m.z.z;
    let g285: int = g284 + m.w.x * m.x.y * m.y.z * m.z.w;
    let g286: int = g285 + m.w.x * m.x.z * m.y.w * m.z.y;
    let g287: int = g286 - m.w.x * m.x.z * m.y.y * m.z.w;
    assert(m.z.x * m.w.y == m.w.y * m.z.x
        && ((0 - m.w.x * m.z.y) + m.w.y * m.z.x) * (m.y.w) == (0 - m.w.x * m.z.y) * (m.y.w) + (m.w.y * m.z.x) * (m.y.w)
        && ((0 - m.w.x * m.z.y)) * (m.y.w) == (0 - m.w.x * m.y.w * m.z.y)
        && (m.w.y * m.z.x) * m.y.w == m.w.y * m.y.w * m.z.x
    ) by (nonlinear_arith);
    assert(m.y.x * m.w.y == m.w.y * m.y.x
        && (m.w.x * m.y.y - m.w.y * m.y.x) * (m.z.w) == m.w.x * m.y.y * (m.z.w) - (m.w.y * m.y.x) * (m.z.w)
        && m.z.x * m.y.y == m.y.y * m.z.x
        && (m.y.x * m.z.y - m.y.y * m.z.x) * (m.w.w) == m.y.x * m.z.y * (m.w.w) - (m.y.y * m.z.x) * (m.w.w)
    ) by (nonlinear_arith);
    assert((m.y.x * m.z.y) * m.w.w == m.w.w * m.y.x * m.z.y
        && (m.y.y * m.z.x) * m.w.w == m.w.w * m.y.y * m.z.x
        && (m.x.x) * (g11 - m.w.y * m.y.x * m.z.w) == (m.x.x) * (g11) - (m.x.x) * (m.w.y * m.y.x * m.z.w)
    ) by (nonlinear_arith);
    assert((m.x.x) * (g10 + m.w.y * m.y.w * m.z.x) == (m.x.x) * (g10) + (m.x.x) * (m.w.y * m.y.w * m.z.x)
        && (m.x.x) * (g9 + m.w.x * m.y.y * m.z.w) == (m.x.x) * (g9) + (m.x.x) * (m.w.x * m.y.y * m.z.w)
    ) by (nonlinear_arith);
    assert((m.x.x) * (g8 - m.w.x * m.y.w * m.z.y) == (m.x.x) * (g8) - (m.x.x) * (m.w.x * m.y.w * m.z.y)
        && (m.x.x) * (m.w.w * m.y.x * m.z.y - m.w.w * m.y.y * m.z.x) == (m.x.x) * (m.w.w * m.y.x * m.z.y) - (m.x.x) * (m.w.w * m.y.y * m.z.x)
    ) by (nonlinear_arith);
    assert(m.x.x * (m.w.w * m.y.x * m.z.y) == m.w.w * m.x.x * m.y.x * m.z.y
        && m.x.x * (m.w.w * m.y.y * m.z.x) == m.w.w * m.x.x * m.y.y * m.z.x
        && m.x.x * (m.w.x * m.y.w * m.z.y) == m.w.x * m.x.x * m.y.w * m.z.y
    ) by (nonlinear_arith);
    assert(m.x.x * (m.w.x * m.y.y * m.z.w) == m.w.x * m.x.x * m.y.y * m.z.w
        && m.x.x * (m.w.y * m.y.w * m.z.x) == m.w.y * m.x.x * m.y.w * m.z.x
        && m.x.x * (m.w.y * m.y.x * m.z.w) == m.w.y * m.x.x * m.y.x * m.z.w
    ) by (nonlinear_arith);
    assert(((0 - m.w.x * m.z.y) + m.w.y * m.z.x) * (m.x.w) == (0 - m.w.x * m.z.y) * (m.x.w) + (m.w.y * m.z.x) * (m.x.w)
        && ((0 - m.w.x * m.z.y)) * (m.x.w) == (0 - m.w.x * m.x.w * m.z.y)
        && (m.w.y * m.z.x) * m.x.w == m.w.y * m.x.w * m.z.x
        && m.x.x * m.w.y == m.w.y * m.x.x
    ) by (nonlinear_arith);
    assert((m.w.x * m.x.y - m.w.y * m.x.x) * (m.z.w) == m.w.x * m.x.y * (m.z.w) - (m.w.y * m.x.x) * (m.z.w)
        && m.z.x * m.x.y == m.x.y * m.z.x
        && (m.x.x * m.z.y - m.x.y * m.z.x) * (m.w.w) == m.x.x * m.z.y * (m.w.w) - (m.x.y * m.z.x) * (m.w.w)
    ) by (nonlinear_arith);
    assert((m.x.x * m.z.y) * m.w.w == m.w.w * m.x.x * m.z.y
        && (m.x.y * m.z.x) * m.w.w == m.w.w * m.x.y * m.z.x
        && (m.y.x) * (g33 + m.w.y * m.x.x * m.z.w) == (m.y.x) * (g33) + (m.y.x) * (m.w.y * m.x.x * m.z.w)
    ) by (nonlinear_arith);
    assert((m.y.x) * (g32 - m.w.y * m.x.w * m.z.x) == (m.y.x) * (g32) - (m.y.x) * (m.w.y * m.x.w * m.z.x)
        && (m.y.x) * (g31 - m.w.x * m.x.y * m.z.w) == (m.y.x) * (g31) - (m.y.x) * (m.w.x * m.x.y * m.z.w)
    ) by (nonlinear_arith);
    assert((m.y.x) * (g30 + m.w.x * m.x.w * m.z.y) == (m.y.x) * (g30) + (m.y.x) * (m.w.x * m.x.w * m.z.y)
        && (m.y.x) * ((0 - m.w.w * m.x.x * m.z.y) + m.w.w * m.x.y * m.z.x) == (m.y.x) * ((0 - m.w.w * m.x.x * m.z.y)) + (m.y.x) * (m.w.w * m.x.y * m.z.x)
    ) by (nonlinear_arith);
    assert((m.y.x) * ((0 - m.w.w * m.x.x * m.z.y)) == (0 - m.w.w * m.x.x * m.y.x * m.z.y)
        && m.y.x * (m.w.w * m.x.y * m.z.x) == m.w.w * m.x.y * m.y.x * m.z.x
        && m.y.x * (m.w.x * m.x.w * m.z.y) == m.w.x * m.x.w * m.y.x * m.z.y
    ) by (nonlinear_arith);
    assert(m.y.x * (m.w.x * m.x.y * m.z.w) == m.w.x * m.x.y * m.y.x * m.z.w
        && m.y.x * (m.w.y * m.x.w * m.z.x) == m.w.y * m.x.w * m.y.x * m.z.x
        && m.y.x * (m.w.y * m.x.x * m.z.w) == m.w.y * m.x.x * m.y.x * m.z.w
    ) by (nonlinear_arith);
    assert(((0 - m.w.x * m.y.y) + m.w.y * m.y.x) * (m.x.w) == (0 - m.w.x * m.y.y) * (m.x.w) + (m.w.y * m.y.x) * (m.x.w)
        && ((0 - m.w.x * m.y.y)) * (m.x.w) == (0 - m.w.x * m.x.w * m.y.y)
        && (m.w.y * m.y.x) * m.x.w == m.w.y * m.x.w * m.y.x
    ) by (nonlinear_arith);
    assert((m.w.x * m.x.y - m.w.y * m.x.x) * (m.y.w) == m.w.x * m.x.y * (m.y.w) - (m.w.y * m.x.x) * (m.y.w)
        && m.y.x * m.x.y == m.x.y * m.y.x
        && (m.x.x * m.y.y - m.x.y * m.y.x) * (m.w.w) == m.x.x * m.y.y * (m.w.w) - (m.x.y * m.y.x) * (m.w.w)
    ) by (nonlinear_arith);
    assert((m.x.x * m.y.y) * m.w.w == m.w.w * m.x.x * m.y.y
        && (m.x.y * m.y.x) * m.w.w == m.w.w * m.x.y * m.y.x
        && (m.z.x) * (g57 - m.w.y * m.x.x * m.y.w) == (m.z.x) * (g57) - (m.z.x) * (m.w.y * m.x.x * m.y.w)
    ) by (nonlinear_arith);
    assert((m.z.x) * (g56 + m.w.y * m.x.w * m.y.x) == (m.z.x) * (g56) + (m.z.x) * (m.w.y * m.x.w * m.y.x)
        && (m.z.x) * (g55 + m.w.x * m.x.y * m.y.w) == (m.z.x) * (g55) + (m.z.x) * (m.w.x * m.x.y * m.y.w)
    ) by (nonlinear_arith);
    assert((m.z.x) * (g54 - m.w.x * m.x.w * m.y.y) == (m.z.x) * (g54) - (m.z.x) * (m.w.x * m.x.w * m.y.y)
        && (m.z.x) * (m.w.w * m.x.x * m.y.y - m.w.w * m.x.y * m.y.x) == (m.z.x) * (m.w.w * m.x.x * m.y.y) - (m.z.x) * (m.w.w * m.x.y * m.y.x)
    ) by (nonlinear_arith);
    assert(m.z.x * (m.w.w * m.x.x * m.y.y) == m.w.w * m.x.x * m.y.y * m.z.x
        && m.z.x * (m.w.w * m.x.y * m.y.x) == m.w.w * m.x.y * m.y.x * m.z.x
        && m.z.x * (m.w.x * m.x.w * m.y.y) == m.w.x * m.x.w * m.y.y * m.z.x
    ) by (nonlinear_arith);
    assert(m.z.x * (m.w.x * m.x.y * m.y.w) == m.w.x * m.x.y * m.y.w * m.z.x
        && m.z.x * (m.w.y * m.x.w * m.y.x) == m.w.y * m.x.w * m.y.x * m.z.x
        && m.z.x * (m.w.y * m.x.x * m.y.w) == m.w.y * m.x.x * m.y.w * m.z.x
    ) by (nonlinear_arith);
    assert((m.y.x * m.z.y - m.y.y * m.z.x) * (m.x.w) == m.y.x * m.z.y * (m.x.w) - (m.y.y * m.z.x) * (m.x.w)
        && (m.y.x * m.z.y) * m.x.w == m.x.w * m.y.x * m.z.y
        && (m.y.y * m.z.x) * m.x.w == m.x.w * m.y.y * m.z.x
    ) by (nonlinear_arith);
    assert(((0 - m.x.x * m.z.y) + m.x.y * m.z.x) * (m.y.w) == (0 - m.x.x * m.z.y) * (m.y.w) + (m.x.y * m.z.x) * (m.y.w)
        && ((0 - m.x.x * m.z.y)) * (m.y.w) == (0 - m.x.x * m.y.w * m.z.y)
        && (m.x.y * m.z.x) * m.y.w == m.x.y * m.y.w * m.z.x
    ) by (nonlinear_arith);
    assert((m.x.x * m.y.y - m.x.y * m.y.x) * (m.z.w) == m.x.x * m.y.y * (m.z.w) - (m.x.y * m.y.x) * (m.z.w)
        && (m.w.x) * (g81 + m.x.y * m.y.x * m.z.w) == (m.w.x) * (g81) + (m.w.x) * (m.x.y * m.y.x * m.z.w)
    ) by (nonlinear_arith);
    assert((m.w.x) * (g80 - m.x.y * m.y.w * m.z.x) == (m.w.x) * (g80) - (m.w.x) * (m.x.y * m.y.w * m.z.x)
        && (m.w.x) * (g79 - m.x.x * m.y.y * m.z.w) == (m.w.x) * (g79) - (m.w.x) * (m.x.x * m.y.y * m.z.w)
    ) by (nonlinear_arith);
    assert((m.w.x) * (g78 + m.x.x * m.y.w * m.z.y) == (m.w.x) * (g78) + (m.w.x) * (m.x.x * m.y.w * m.z.y)
        && (m.w.x) * ((0 - m.x.w * m.y.x * m.z.y) + m.x.w * m.y.y * m.z.x) == (m.w.x) * ((0 - m.x.w * m.y.x * m.z.y)) + (m.w.x) * (m.x.w * m.y.y * m.z.x)
    ) by (nonlinear_arith);
    assert((m.w.x) * ((0 - m.x.w * m.y.x * m.z.y)) == (0 - m.w.x * m.x.w * m.y.x * m.z.y)
        && m.w.x * (m.x.w * m.y.y * m.z.x) == m.w.x * m.x.w * m.y.y * m.z.x
        && m.w.x * (m.x.x * m.y.w * m.z.y) == m.w.x * m.x.x * m.y.w * m.z.y
    ) by (nonlinear_arith);
    assert(m.w.x * (m.x.x * m.y.y * m.z.w) == m.w.x * m.x.x * m.y.y * m.z.w
        && m.w.x * (m.x.y * m.y.w * m.z.x) == m.w.x * m.x.y * m.y.w * m.z.x
        && m.w.x * (m.x.y * m.y.x * m.z.w) == m.w.x * m.x.y * m.y.x * m.z.w
    ) by (nonlinear_arith);
    assert((m.x.y) * (g11 - m.w.y * m.y.x * m.z.w) == (m.x.y) * (g11) - (m.x.y) * (m.w.y * m.y.x * m.z.w)
        && (m.x.y) * (g10 + m.w.y * m.y.w * m.z.x) == (m.x.y) * (g10) + (m.x.y) * (m.w.y * m.y.w * m.z.x)
    ) by (nonlinear_arith);
    assert((m.x.y) * (g9 + m.w.x * m.y.y * m.z.w) == (m.x.y) * (g9) + (m.x.y) * (m.w.x * m.y.y * m.z.w)
        && (m.x.y) * (g8 - m.w.x * m.y.w * m.z.y) == (m.x.y) * (g8) - (m.x.y) * (m.w.x * m.y.w * m.z.y)
    ) by (nonlinear_arith);
    assert((m.x.y) * (m.w.w * m.y.x * m.z.y - m.w.w * m.y.y * m.z.x) == (m.x.y) * (m.w.w * m.y.x * m.z.y) - (m.x.y) * (m.w.w * m.y.y * m.z.x)
        && m.x.y * (m.w.w * m.y.x * m.z.y) == m.w.w * m.x.y * m.y.x * m.z.y
    ) by (nonlinear_arith);
    assert(m.x.y * (m.w.w * m.y.y * m.z.x) == m.w.w * m.x.y * m.y.y * m.z.x
        && m.x.y * (m.w.x * m.y.w * m.z.y) == m.w.x * m.x.y * m.y.w * m.z.y
        && m.x.y * (m.w.x * m.y.y * m.z.w) == m.w.x * m.x.y * m.y.y * m.z.w
    ) by (nonlinear_arith);
    assert(m.x.y * (m.w.y * m.y.w * m.z.x) == m.w.y * m.x.y * m.y.w * m.z.x
        && m.x.y * (m.w.y * m.y.x * m.z.w) == m.w.y * m.x.y * m.y.x * m.z.w
    ) by (nonlinear_arith);
    assert((m.y.y) * (g33 + m.w.y * m.x.x * m.z.w) == (m.y.y) * (g33) + (m.y.y) * (m.w.y * m.x.x * m.z.w)
        && (m.y.y) * (g32 - m.w.y * m.x.w * m.z.x) == (m.y.y) * (g32) - (m.y.y) * (m.w.y * m.x.w * m.z.x)
    ) by (nonlinear_arith);
    assert((m.y.y) * (g31 - m.w.x * m.x.y * m.z.w) == (m.y.y) * (g31) - (m.y.y) * (m.w.x * m.x.y * m.z.w)
        && (m.y.y) * (g30 + m.w.x * m.x.w * m.z.y) == (m.y.y) * (g30) + (m.y.y) * (m.w.x * m.x.w * m.z.y)
    ) by (nonlinear_arith);
    assert((m.y.y) * ((0 - m.w.w * m.x.x * m.z.y) + m.w.w * m.x.y * m.z.x) == (m.y.y) * ((0 - m.w.w * m.x.x * m.z.y)) + (m.y.y) * (m.w.w * m.x.y * m.z.x)
        && (m.y.y) * ((0 - m.w.w * m.x.x * m.z.y)) == (0 - m.w.w * m.x.x * m.y.y * m.z.y)
    ) by (nonlinear_arith);
    assert(m.y.y * (m.w.w * m.x.y * m.z.x) == m.w.w * m.x.y * m.y.y * m.z.x
        && m.y.y * (m.w.x * m.x.w * m.z.y) == m.w.x * m.x.w * m.y.y * m.z.y
        && m.y.y * (m.w.x * m.x.y * m.z.w) == m.w.x * m.x.y * m.y.y * m.z.w
    ) by (nonlinear_arith);
    assert(m.y.y * (m.w.y * m.x.w * m.z.x) == m.w.y * m.x.w * m.y.y * m.z.x
        && m.y.y * (m.w.y * m.x.x * m.z.w) == m.w.y * m.x.x * m.y.y * m.z.w
    ) by (nonlinear_arith);
    assert((m.z.y) * (g57 - m.w.y * m.x.x * m.y.w) == (m.z.y) * (g57) - (m.z.y) * (m.w.y * m.x.x * m.y.w)
        && (m.z.y) * (g56 + m.w.y * m.x.w * m.y.x) == (m.z.y) * (g56) + (m.z.y) * (m.w.y * m.x.w * m.y.x)
    ) by (nonlinear_arith);
    assert((m.z.y) * (g55 + m.w.x * m.x.y * m.y.w) == (m.z.y) * (g55) + (m.z.y) * (m.w.x * m.x.y * m.y.w)
        && (m.z.y) * (g54 - m.w.x * m.x.w * m.y.y) == (m.z.y) * (g54) - (m.z.y) * (m.w.x * m.x.w * m.y.y)
    ) by (nonlinear_arith);
    assert((m.z.y) * (m.w.w * m.x.x * m.y.y - m.w.w * m.x.y * m.y.x) == (m.z.y) * (m.w.w * m.x.x * m.y.y) - (m.z.y) * (m.w.w * m.x.y * m.y.x)
        && m.z.y * (m.w.w * m.x.x * m.y.y) == m.w.w * m.x.x * m.y.y * m.z.y
    ) by (nonlinear_arith);
    assert(m.z.y * (m.w.w * m.x.y * m.y.x) == m.w.w * m.x.y * m.y.x * m.z.y
        && m.z.y * (m.w.x * m.x.w * m.y.y) == m.w.x * m.x.w * m.y.y * m.z.y
        && m.z.y * (m.w.x * m.x.y * m.y.w) == m.w.x * m.x.y * m.y.w * m.z.y
    ) by (nonlinear_arith);
    assert(m.z.y * (m.w.y * m.x.w * m.y.x) == m.w.y * m.x.w * m.y.x * m.z.y
        && m.z.y * (m.w.y * m.x.x * m.y.w) == m.w.y * m.x.x * m.y.w * m.z.y
    ) by (nonlinear_arith);
    assert((m.w.y) * (g81 + m.x.y * m.y.x * m.z.w) == (m.w.y) * (g81) + (m.w.y) * (m.x.y * m.y.x * m.z.w)
        && (m.w.y) * (g80 - m.x.y * m.y.w * m.z.x) == (m.w.y) * (g80) - (m.w.y) * (m.x.y * m.y.w * m.z.x)
    ) by (nonlinear_arith);
    assert((m.w.y) * (g79 - m.x.x * m.y.y * m.z.w) == (m.w.y) * (g79) - (m.w.y) * (m.x.x * m.y.y * m.z.w)
        && (m.w.y) * (g78 + m.x.x * m.y.w * m.z.y) == (m.w.y) * (g78) + (m.w.y) * (m.x.x * m.y.w * m.z.y)
    ) by (nonlinear_arith);
    assert((m.w.y) * ((0 - m.x.w * m.y.x * m.z.y) + m.x.w * m.y.y * m.z.x) == (m.w.y) * ((0 - m.x.w * m.y.x * m.z.y)) + (m.w.y) * (m.x.w * m.y.y * m.z.x)
        && (m.w.y) * ((0 - m.x.w * m.y.x * m.z.y)) == (0 - m.w.y * m.x.w * m.y.x * m.z.y)
    ) by (nonlinear_arith);
    assert(m.w.y * (m.x.w * m.y.y * m.z.x) == m.w.y * m.x.w * m.y.y * m.z.x
        && m.w.y * (m.x.x * m.y.w * m.z.y) == m.w.y * m.x.x * m.y.w * m.z.y
        && m.w.y * (m.x.x * m.y.y * m.z.w) == m.w.y * m.x.x * m.y.y * m.z.w
    ) by (nonlinear_arith);
    assert(m.w.y * (m.x.y * m.y.w * m.z.x) == m.w.y * m.x.y * m.y.w * m.z.x
        && m.w.y * (m.x.y * m.y.x * m.z.w) == m.w.y * m.x.y * m.y.x * m.z.w
    ) by (nonlinear_arith);
    assert((m.x.z) * (g11 - m.w.y * m.y.x * m.z.w) == (m.x.z) * (g11) - (m.x.z) * (m.w.y * m.y.x * m.z.w)
        && (m.x.z) * (g10 + m.w.y * m.y.w * m.z.x) == (m.x.z) * (g10) + (m.x.z) * (m.w.y * m.y.w * m.z.x)
    ) by (nonlinear_arith);
    assert((m.x.z) * (g9 + m.w.x * m.y.y * m.z.w) == (m.x.z) * (g9) + (m.x.z) * (m.w.x * m.y.y * m.z.w)
        && (m.x.z) * (g8 - m.w.x * m.y.w * m.z.y) == (m.x.z) * (g8) - (m.x.z) * (m.w.x * m.y.w * m.z.y)
    ) by (nonlinear_arith);
    assert((m.x.z) * (m.w.w * m.y.x * m.z.y - m.w.w * m.y.y * m.z.x) == (m.x.z) * (m.w.w * m.y.x * m.z.y) - (m.x.z) * (m.w.w * m.y.y * m.z.x)
        && m.x.z * (m.w.w * m.y.x * m.z.y) == m.w.w * m.x.z * m.y.x * m.z.y
    ) by (nonlinear_arith);
    assert(m.x.z * (m.w.w * m.y.y * m.z.x) == m.w.w * m.x.z * m.y.y * m.z.x
        && m.x.z * (m.w.x * m.y.w * m.z.y) == m.w.x * m.x.z * m.y.w * m.z.y
        && m.x.z * (m.w.x * m.y.y * m.z.w) == m.w.x * m.x.z * m.y.y * m.z.w
    ) by (nonlinear_arith);
    assert(m.x.z * (m.w.y * m.y.w * m.z.x) == m.w.y * m.x.z * m.y.w * m.z.x
        && m.x.z * (m.w.y * m.y.x * m.z.w) == m.w.y * m.x.z * m.y.x * m.z.w
    ) by (nonlinear_arith);
    assert((m.y.z) * (g33 + m.w.y * m.x.x * m.z.w) == (m.y.z) * (g33) + (m.y.z) * (m.w.y * m.x.x * m.z.w)
        && (m.y.z) * (g32 - m.w.y * m.x.w * m.z.x) == (m.y.z) * (g32) - (m.y.z) * (m.w.y * m.x.w * m.z.x)
    ) by (nonlinear_arith);
    assert((m.y.z) * (g31 - m.w.x * m.x.y * m.z.w) == (m.y.z) * (g31) - (m.y.z) * (m.w.x * m.x.y * m.z.w)
        && (m.y.z) * (g30 + m.w.x * m.x.w * m.z.y) == (m.y.z) * (g30) + (m.y.z) * (m.w.x * m.x.w * m.z.y)
    ) by (nonlinear_arith);
    assert((m.y.z) * ((0 - m.w.w * m.x.x * m.z.y) + m.w.w * m.x.y * m.z.x) == (m.y.z) * ((0 - m.w.w * m.x.x * m.z.y)) + (m.y.z) * (m.w.w * m.x.y * m.z.x)
        && (m.y.z) * ((0 - m.w.w * m.x.x * m.z.y)) == (0 - m.w.w * m.x.x * m.y.z * m.z.y)
    ) by (nonlinear_arith);
    assert(m.y.z * (m.w.w * m.x.y * m.z.x) == m.w.w * m.x.y * m.y.z * m.z.x
        && m.y.z * (m.w.x * m.x.w * m.z.y) == m.w.x * m.x.w * m.y.z * m.z.y
        && m.y.z * (m.w.x * m.x.y * m.z.w) == m.w.x * m.x.y * m.y.z * m.z.w
    ) by (nonlinear_arith);
    assert(m.y.z * (m.w.y * m.x.w * m.z.x) == m.w.y * m.x.w * m.y.z * m.z.x
        && m.y.z * (m.w.y * m.x.x * m.z.w) == m.w.y * m.x.x * m.y.z * m.z.w
    ) by (nonlinear_arith);
    assert((m.z.z) * (g57 - m.w.y * m.x.x * m.y.w) == (m.z.z) * (g57) - (m.z.z) * (m.w.y * m.x.x * m.y.w)
        && (m.z.z) * (g56 + m.w.y * m.x.w * m.y.x) == (m.z.z) * (g56) + (m.z.z) * (m.w.y * m.x.w * m.y.x)
    ) by (nonlinear_arith);
    assert((m.z.z) * (g55 + m.w.x * m.x.y * m.y.w) == (m.z.z) * (g55) + (m.z.z) * (m.w.x * m.x.y * m.y.w)
        && (m.z.z) * (g54 - m.w.x * m.x.w * m.y.y) == (m.z.z) * (g54) - (m.z.z) * (m.w.x * m.x.w * m.y.y)
    ) by (nonlinear_arith);
    assert((m.z.z) * (m.w.w * m.x.x * m.y.y - m.w.w * m.x.y * m.y.x) == (m.z.z) * (m.w.w * m.x.x * m.y.y) - (m.z.z) * (m.w.w * m.x.y * m.y.x)
        && m.z.z * (m.w.w * m.x.x * m.y.y) == m.w.w * m.x.x * m.y.y * m.z.z
    ) by (nonlinear_arith);
    assert(m.z.z * (m.w.w * m.x.y * m.y.x) == m.w.w * m.x.y * m.y.x * m.z.z
        && m.z.z * (m.w.x * m.x.w * m.y.y) == m.w.x * m.x.w * m.y.y * m.z.z
        && m.z.z * (m.w.x * m.x.y * m.y.w) == m.w.x * m.x.y * m.y.w * m.z.z
    ) by (nonlinear_arith);
    assert(m.z.z * (m.w.y * m.x.w * m.y.x) == m.w.y * m.x.w * m.y.x * m.z.z
        && m.z.z * (m.w.y * m.x.x * m.y.w) == m.w.y * m.x.x * m.y.w * m.z.z
    ) by (nonlinear_arith);
    assert((m.w.z) * (g81 + m.x.y * m.y.x * m.z.w) == (m.w.z) * (g81) + (m.w.z) * (m.x.y * m.y.x * m.z.w)
        && (m.w.z) * (g80 - m.x.y * m.y.w * m.z.x) == (m.w.z) * (g80) - (m.w.z) * (m.x.y * m.y.w * m.z.x)
    ) by (nonlinear_arith);
    assert((m.w.z) * (g79 - m.x.x * m.y.y * m.z.w) == (m.w.z) * (g79) - (m.w.z) * (m.x.x * m.y.y * m.z.w)
        && (m.w.z) * (g78 + m.x.x * m.y.w * m.z.y) == (m.w.z) * (g78) + (m.w.z) * (m.x.x * m.y.w * m.z.y)
    ) by (nonlinear_arith);
    assert((m.w.z) * ((0 - m.x.w * m.y.x * m.z.y) + m.x.w * m.y.y * m.z.x) == (m.w.z) * ((0 - m.x.w * m.y.x * m.z.y)) + (m.w.z) * (m.x.w * m.y.y * m.z.x)
        && (m.w.z) * ((0 - m.x.w * m.y.x * m.z.y)) == (0 - m.w.z * m.x.w * m.y.x * m.z.y)
    ) by (nonlinear_arith);
    assert(m.w.z * (m.x.w * m.y.y * m.z.x) == m.w.z * m.x.w * m.y.y * m.z.x
        && m.w.z * (m.x.x * m.y.w * m.z.y) == m.w.z * m.x.x * m.y.w * m.z.y
        && m.w.z * (m.x.x * m.y.y * m.z.w) == m.w.z * m.x.x * m.y.y * m.z.w
    ) by (nonlinear_arith);
    assert(m.w.z * (m.x.y * m.y.w * m.z.x) == m.w.z * m.x.y * m.y.w * m.z.x
        && m.w.z * (m.x.y * m.y.x * m.z.w) == m.w.z * m.x.y * m.y.x * m.z.w
    ) by (nonlinear_arith);
    assert((m.x.w) * (g11 - m.w.y * m.y.x * m.z.w) == (m.x.w) * (g11) - (m.x.w) * (m.w.y * m.y.x * m.z.w)
        && (m.x.w) * (g10 + m.w.y * m.y.w * m.z.x) == (m.x.w) * (g10) + (m.x.w) * (m.w.y * m.y.w * m.z.x)
    ) by (nonlinear_arith);
    assert((m.x.w) * (g9 + m.w.x * m.y.y * m.z.w) == (m.x.w) * (g9) + (m.x.w) * (m.w.x * m.y.y * m.z.w)
        && (m.x.w) * (g8 - m.w.x * m.y.w * m.z.y) == (m.x.w) * (g8) - (m.x.w) * (m.w.x * m.y.w * m.z.y)
    ) by (nonlinear_arith);
    assert((m.x.w) * (m.w.w * m.y.x * m.z.y - m.w.w * m.y.y * m.z.x) == (m.x.w) * (m.w.w * m.y.x * m.z.y) - (m.x.w) * (m.w.w * m.y.y * m.z.x)
        && m.x.w * (m.w.w * m.y.x * m.z.y) == m.w.w * m.x.w * m.y.x * m.z.y
    ) by (nonlinear_arith);
    assert(m.x.w * (m.w.w * m.y.y * m.z.x) == m.w.w * m.x.w * m.y.y * m.z.x
        && m.x.w * (m.w.x * m.y.w * m.z.y) == m.w.x * m.x.w * m.y.w * m.z.y
        && m.x.w * (m.w.x * m.y.y * m.z.w) == m.w.x * m.x.w * m.y.y * m.z.w
    ) by (nonlinear_arith);
    assert(m.x.w * (m.w.y * m.y.w * m.z.x) == m.w.y * m.x.w * m.y.w * m.z.x
        && m.x.w * (m.w.y * m.y.x * m.z.w) == m.w.y * m.x.w * m.y.x * m.z.w
    ) by (nonlinear_arith);
    assert((m.y.w) * (g33 + m.w.y * m.x.x * m.z.w) == (m.y.w) * (g33) + (m.y.w) * (m.w.y * m.x.x * m.z.w)
        && (m.y.w) * (g32 - m.w.y * m.x.w * m.z.x) == (m.y.w) * (g32) - (m.y.w) * (m.w.y * m.x.w * m.z.x)
    ) by (nonlinear_arith);
    assert((m.y.w) * (g31 - m.w.x * m.x.y * m.z.w) == (m.y.w) * (g31) - (m.y.w) * (m.w.x * m.x.y * m.z.w)
        && (m.y.w) * (g30 + m.w.x * m.x.w * m.z.y) == (m.y.w) * (g30) + (m.y.w) * (m.w.x * m.x.w * m.z.y)
    ) by (nonlinear_arith);
    assert((m.y.w) * ((0 - m.w.w * m.x.x * m.z.y) + m.w.w * m.x.y * m.z.x) == (m.y.w) * ((0 - m.w.w * m.x.x * m.z.y)) + (m.y.w) * (m.w.w * m.x.y * m.z.x)
        && (m.y.w) * ((0 - m.w.w * m.x.x * m.z.y)) == (0 - m.w.w * m.x.x * m.y.w * m.z.y)
    ) by (nonlinear_arith);
    assert(m.y.w * (m.w.w * m.x.y * m.z.x) == m.w.w * m.x.y * m.y.w * m.z.x
        && m.y.w * (m.w.x * m.x.w * m.z.y) == m.w.x * m.x.w * m.y.w * m.z.y
        && m.y.w * (m.w.x * m.x.y * m.z.w) == m.w.x * m.x.y * m.y.w * m.z.w
    ) by (nonlinear_arith);
    assert(m.y.w * (m.w.y * m.x.w * m.z.x) == m.w.y * m.x.w * m.y.w * m.z.x
        && m.y.w * (m.w.y * m.x.x * m.z.w) == m.w.y * m.x.x * m.y.w * m.z.w
    ) by (nonlinear_arith);
    assert((m.z.w) * (g57 - m.w.y * m.x.x * m.y.w) == (m.z.w) * (g57) - (m.z.w) * (m.w.y * m.x.x * m.y.w)
        && (m.z.w) * (g56 + m.w.y * m.x.w * m.y.x) == (m.z.w) * (g56) + (m.z.w) * (m.w.y * m.x.w * m.y.x)
    ) by (nonlinear_arith);
    assert((m.z.w) * (g55 + m.w.x * m.x.y * m.y.w) == (m.z.w) * (g55) + (m.z.w) * (m.w.x * m.x.y * m.y.w)
        && (m.z.w) * (g54 - m.w.x * m.x.w * m.y.y) == (m.z.w) * (g54) - (m.z.w) * (m.w.x * m.x.w * m.y.y)
    ) by (nonlinear_arith);
    assert((m.z.w) * (m.w.w * m.x.x * m.y.y - m.w.w * m.x.y * m.y.x) == (m.z.w) * (m.w.w * m.x.x * m.y.y) - (m.z.w) * (m.w.w * m.x.y * m.y.x)
        && m.z.w * (m.w.w * m.x.x * m.y.y) == m.w.w * m.x.x * m.y.y * m.z.w
    ) by (nonlinear_arith);
    assert(m.z.w * (m.w.w * m.x.y * m.y.x) == m.w.w * m.x.y * m.y.x * m.z.w
        && m.z.w * (m.w.x * m.x.w * m.y.y) == m.w.x * m.x.w * m.y.y * m.z.w
        && m.z.w * (m.w.x * m.x.y * m.y.w) == m.w.x * m.x.y * m.y.w * m.z.w
    ) by (nonlinear_arith);
    assert(m.z.w * (m.w.y * m.x.w * m.y.x) == m.w.y * m.x.w * m.y.x * m.z.w
        && m.z.w * (m.w.y * m.x.x * m.y.w) == m.w.y * m.x.x * m.y.w * m.z.w
    ) by (nonlinear_arith);
    assert((m.w.w) * (g81 + m.x.y * m.y.x * m.z.w) == (m.w.w) * (g81) + (m.w.w) * (m.x.y * m.y.x * m.z.w)
        && (m.w.w) * (g80 - m.x.y * m.y.w * m.z.x) == (m.w.w) * (g80) - (m.w.w) * (m.x.y * m.y.w * m.z.x)
    ) by (nonlinear_arith);
    assert((m.w.w) * (g79 - m.x.x * m.y.y * m.z.w) == (m.w.w) * (g79) - (m.w.w) * (m.x.x * m.y.y * m.z.w)
        && (m.w.w) * (g78 + m.x.x * m.y.w * m.z.y) == (m.w.w) * (g78) + (m.w.w) * (m.x.x * m.y.w * m.z.y)
    ) by (nonlinear_arith);
    assert((m.w.w) * ((0 - m.x.w * m.y.x * m.z.y) + m.x.w * m.y.y * m.z.x) == (m.w.w) * ((0 - m.x.w * m.y.x * m.z.y)) + (m.w.w) * (m.x.w * m.y.y * m.z.x)
        && (m.w.w) * ((0 - m.x.w * m.y.x * m.z.y)) == (0 - m.w.w * m.x.w * m.y.x * m.z.y)
    ) by (nonlinear_arith);
    assert(m.w.w * (m.x.w * m.y.y * m.z.x) == m.w.w * m.x.w * m.y.y * m.z.x
        && m.w.w * (m.x.x * m.y.w * m.z.y) == m.w.w * m.x.x * m.y.w * m.z.y
        && m.w.w * (m.x.x * m.y.y * m.z.w) == m.w.w * m.x.x * m.y.y * m.z.w
    ) by (nonlinear_arith);
    assert(m.w.w * (m.x.y * m.y.w * m.z.x) == m.w.w * m.x.y * m.y.w * m.z.x
        && m.w.w * (m.x.y * m.y.x * m.z.w) == m.w.w * m.x.y * m.y.x * m.z.w
        && m.z.y * m.w.z == m.w.z * m.z.y
    ) by (nonlinear_arith);
    assert(((0 - m.w.y * m.z.z) + m.w.z * m.z.y) * (m.y.w) == (0 - m.w.y * m.z.z) * (m.y.w) + (m.w.z * m.z.y) * (m.y.w)
        && ((0 - m.w.y * m.z.z)) * (m.y.w) == (0 - m.w.y * m.y.w * m.z.z)
        && (m.w.z * m.z.y) * m.y.w == m.w.z * m.y.w * m.z.y
        && m.y.y * m.w.z == m.w.z * m.y.y
    ) by (nonlinear_arith);
    assert((m.w.y * m.y.z - m.w.z * m.y.y) * (m.z.w) == m.w.y * m.y.z * (m.z.w) - (m.w.z * m.y.y) * (m.z.w)
        && m.z.y * m.y.z == m.y.z * m.z.y
        && (m.y.y * m.z.z - m.y.z * m.z.y) * (m.w.w) == m.y.y * m.z.z * (m.w.w) - (m.y.z * m.z.y) * (m.w.w)
    ) by (nonlinear_arith);
    assert((m.y.y * m.z.z) * m.w.w == m.w.w * m.y.y * m.z.z
        && (m.y.z * m.z.y) * m.w.w == m.w.w * m.y.z * m.z.y
        && (m.x.x) * (g213 - m.w.z * m.y.y * m.z.w) == (m.x.x) * (g213) - (m.x.x) * (m.w.z * m.y.y * m.z.w)
    ) by (nonlinear_arith);
    assert((m.x.x) * (g212 + m.w.z * m.y.w * m.z.y) == (m.x.x) * (g212) + (m.x.x) * (m.w.z * m.y.w * m.z.y)
        && (m.x.x) * (g211 + m.w.y * m.y.z * m.z.w) == (m.x.x) * (g211) + (m.x.x) * (m.w.y * m.y.z * m.z.w)
    ) by (nonlinear_arith);
    assert((m.x.x) * (g210 - m.w.y * m.y.w * m.z.z) == (m.x.x) * (g210) - (m.x.x) * (m.w.y * m.y.w * m.z.z)
        && (m.x.x) * (m.w.w * m.y.y * m.z.z - m.w.w * m.y.z * m.z.y) == (m.x.x) * (m.w.w * m.y.y * m.z.z) - (m.x.x) * (m.w.w * m.y.z * m.z.y)
    ) by (nonlinear_arith);
    assert(m.x.x * (m.w.w * m.y.y * m.z.z) == m.w.w * m.x.x * m.y.y * m.z.z
        && m.x.x * (m.w.w * m.y.z * m.z.y) == m.w.w * m.x.x * m.y.z * m.z.y
        && m.x.x * (m.w.y * m.y.w * m.z.z) == m.w.y * m.x.x * m.y.w * m.z.z
    ) by (nonlinear_arith);
    assert(m.x.x * (m.w.y * m.y.z * m.z.w) == m.w.y * m.x.x * m.y.z * m.z.w
        && m.x.x * (m.w.z * m.y.w * m.z.y) == m.w.z * m.x.x * m.y.w * m.z.y
        && m.x.x * (m.w.z * m.y.y * m.z.w) == m.w.z * m.x.x * m.y.y * m.z.w
    ) by (nonlinear_arith);
    assert(((0 - m.w.y * m.z.z) + m.w.z * m.z.y) * (m.x.w) == (0 - m.w.y * m.z.z) * (m.x.w) + (m.w.z * m.z.y) * (m.x.w)
        && ((0 - m.w.y * m.z.z)) * (m.x.w) == (0 - m.w.y * m.x.w * m.z.z)
        && (m.w.z * m.z.y) * m.x.w == m.w.z * m.x.w * m.z.y
        && m.x.y * m.w.z == m.w.z * m.x.y
    ) by (nonlinear_arith);
    assert((m.w.y * m.x.z - m.w.z * m.x.y) * (m.z.w) == m.w.y * m.x.z * (m.z.w) - (m.w.z * m.x.y) * (m.z.w)
        && m.z.y * m.x.z == m.x.z * m.z.y
        && (m.x.y * m.z.z - m.x.z * m.z.y) * (m.w.w) == m.x.y * m.z.z * (m.w.w) - (m.x.z * m.z.y) * (m.w.w)
    ) by (nonlinear_arith);
    assert((m.x.y * m.z.z) * m.w.w == m.w.w * m.x.y * m.z.z
        && (m.x.z * m.z.y) * m.w.w == m.w.w * m.x.z * m.z.y
        && (m.y.x) * (g229 - m.w.z * m.x.y * m.z.w) == (m.y.x) * (g229) - (m.y.x) * (m.w.z * m.x.y * m.z.w)
    ) by (nonlinear_arith);
    assert((m.y.x) * (g228 + m.w.z * m.x.w * m.z.y) == (m.y.x) * (g228) + (m.y.x) * (m.w.z * m.x.w * m.z.y)
        && (m.y.x) * (g227 + m.w.y * m.x.z * m.z.w) == (m.y.x) * (g227) + (m.y.x) * (m.w.y * m.x.z * m.z.w)
    ) by (nonlinear_arith);
    assert((m.y.x) * (g226 - m.w.y * m.x.w * m.z.z) == (m.y.x) * (g226) - (m.y.x) * (m.w.y * m.x.w * m.z.z)
        && (m.y.x) * (m.w.w * m.x.y * m.z.z - m.w.w * m.x.z * m.z.y) == (m.y.x) * (m.w.w * m.x.y * m.z.z) - (m.y.x) * (m.w.w * m.x.z * m.z.y)
    ) by (nonlinear_arith);
    assert(m.y.x * (m.w.w * m.x.y * m.z.z) == m.w.w * m.x.y * m.y.x * m.z.z
        && m.y.x * (m.w.w * m.x.z * m.z.y) == m.w.w * m.x.z * m.y.x * m.z.y
        && m.y.x * (m.w.y * m.x.w * m.z.z) == m.w.y * m.x.w * m.y.x * m.z.z
    ) by (nonlinear_arith);
    assert(m.y.x * (m.w.y * m.x.z * m.z.w) == m.w.y * m.x.z * m.y.x * m.z.w
        && m.y.x * (m.w.z * m.x.w * m.z.y) == m.w.z * m.x.w * m.y.x * m.z.y
        && m.y.x * (m.w.z * m.x.y * m.z.w) == m.w.z * m.x.y * m.y.x * m.z.w
    ) by (nonlinear_arith);
    assert(((0 - m.w.y * m.y.z) + m.w.z * m.y.y) * (m.x.w) == (0 - m.w.y * m.y.z) * (m.x.w) + (m.w.z * m.y.y) * (m.x.w)
        && ((0 - m.w.y * m.y.z)) * (m.x.w) == (0 - m.w.y * m.x.w * m.y.z)
        && (m.w.z * m.y.y) * m.x.w == m.w.z * m.x.w * m.y.y
    ) by (nonlinear_arith);
    assert((m.w.y * m.x.z - m.w.z * m.x.y) * (m.y.w) == m.w.y * m.x.z * (m.y.w) - (m.w.z * m.x.y) * (m.y.w)
        && m.y.y * m.x.z == m.x.z * m.y.y
        && (m.x.y * m.y.z - m.x.z * m.y.y) * (m.w.w) == m.x.y * m.y.z * (m.w.w) - (m.x.z * m.y.y) * (m.w.w)
    ) by (nonlinear_arith);
    assert((m.x.y * m.y.z) * m.w.w == m.w.w * m.x.y * m.y.z
        && (m.x.z * m.y.y) * m.w.w == m.w.w * m.x.z * m.y.y
        && (m.z.x) * (g255 - m.w.z * m.x.y * m.y.w) == (m.z.x) * (g255) - (m.z.x) * (m.w.z * m.x.y * m.y.w)
    ) by (nonlinear_arith);
    assert((m.z.x) * (g254 + m.w.z * m.x.w * m.y.y) == (m.z.x) * (g254) + (m.z.x) * (m.w.z * m.x.w * m.y.y)
        && (m.z.x) * (g253 + m.w.y * m.x.z * m.y.w) == (m.z.x) * (g253) + (m.z.x) * (m.w.y * m.x.z * m.y.w)
    ) by (nonlinear_arith);
    assert((m.z.x) * (g252 - m.w.y * m.x.w * m.y.z) == (m.z.x) * (g252) - (m.z.x) * (m.w.y * m.x.w * m.y.z)
        && (m.z.x) * (m.w.w * m.x.y * m.y.z - m.w.w * m.x.z * m.y.y) == (m.z.x) * (m.w.w * m.x.y * m.y.z) - (m.z.x) * (m.w.w * m.x.z * m.y.y)
    ) by (nonlinear_arith);
    assert(m.z.x * (m.w.w * m.x.y * m.y.z) == m.w.w * m.x.y * m.y.z * m.z.x
        && m.z.x * (m.w.w * m.x.z * m.y.y) == m.w.w * m.x.z * m.y.y * m.z.x
        && m.z.x * (m.w.y * m.x.w * m.y.z) == m.w.y * m.x.w * m.y.z * m.z.x
    ) by (nonlinear_arith);
    assert(m.z.x * (m.w.y * m.x.z * m.y.w) == m.w.y * m.x.z * m.y.w * m.z.x
        && m.z.x * (m.w.z * m.x.w * m.y.y) == m.w.z * m.x.w * m.y.y * m.z.x
        && m.z.x * (m.w.z * m.x.y * m.y.w) == m.w.z * m.x.y * m.y.w * m.z.x
    ) by (nonlinear_arith);
    assert((m.y.y * m.z.z - m.y.z * m.z.y) * (m.x.w) == m.y.y * m.z.z * (m.x.w) - (m.y.z * m.z.y) * (m.x.w)
        && (m.y.y * m.z.z) * m.x.w == m.x.w * m.y.y * m.z.z
        && (m.y.z * m.z.y) * m.x.w == m.x.w * m.y.z * m.z.y
    ) by (nonlinear_arith);
    assert(((0 - m.x.y * m.z.z) + m.x.z * m.z.y) * (m.y.w) == (0 - m.x.y * m.z.z) * (m.y.w) + (m.x.z * m.z.y) * (m.y.w)
        && ((0 - m.x.y * m.z.z)) * (m.y.w) == (0 - m.x.y * m.y.w * m.z.z)
        && (m.x.z * m.z.y) * m.y.w == m.x.z * m.y.w * m.z.y
    ) by (nonlinear_arith);
    assert((m.x.y * m.y.z - m.x.z * m.y.y) * (m.z.w) == m.x.y * m.y.z * (m.z.w) - (m.x.z * m.y.y) * (m.z.w)
        && (m.w.x) * (g281 - m.x.z * m.y.y * m.z.w) == (m.w.x) * (g281) - (m.w.x) * (m.x.z * m.y.y * m.z.w)
    ) by (nonlinear_arith);
    assert((m.w.x) * (g280 + m.x.z * m.y.w * m.z.y) == (m.w.x) * (g280) + (m.w.x) * (m.x.z * m.y.w * m.z.y)
        && (m.w.x) * (g277 + m.x.y * m.y.z * m.z.w) == (m.w.x) * (g277) + (m.w.x) * (m.x.y * m.y.z * m.z.w)
    ) by (nonlinear_arith);
    assert((m.w.x) * (g274 - m.x.y * m.y.w * m.z.z) == (m.w.x) * (g274) - (m.w.x) * (m.x.y * m.y.w * m.z.z)
        && (m.w.x) * (m.x.w * m.y.y * m.z.z - m.x.w * m.y.z * m.z.y) == (m.w.x) * (m.x.w * m.y.y * m.z.z) - (m.w.x) * (m.x.w * m.y.z * m.z.y)
    ) by (nonlinear_arith);
    assert(m.w.x * (m.x.w * m.y.y * m.z.z) == m.w.x * m.x.w * m.y.y * m.z.z
        && m.w.x * (m.x.w * m.y.z * m.z.y) == m.w.x * m.x.w * m.y.z * m.z.y
        && m.w.x * (m.x.y * m.y.w * m.z.z) == m.w.x * m.x.y * m.y.w * m.z.z
    ) by (nonlinear_arith);
    assert(m.w.x * (m.x.y * m.y.z * m.z.w) == m.w.x * m.x.y * m.y.z * m.z.w
        && m.w.x * (m.x.z * m.y.w * m.z.y) == m.w.x * m.x.z * m.y.w * m.z.y
        && m.w.x * (m.x.z * m.y.y * m.z.w) == m.w.x * m.x.z * m.y.y * m.z.w
    ) by (nonlinear_arith);
    assert((m.z.x) * (m.w.y) == m.w.y * m.z.x);
    assert((m.w.x) * (m.z.y) == m.w.x * m.z.y);
    assert((m.w.y * m.z.x) - (m.w.x * m.z.y) == g0);
    assert((g0) * (m.y.w) == g1);
    assert((g0) * (m.y.w) == g1);
    assert((m.w.x) * (m.y.y) == m.w.x * m.y.y);
    assert((m.y.x) * (m.w.y) == m.w.y * m.y.x);
    assert((m.w.x * m.y.y) - (m.w.y * m.y.x) == g2);
    assert((g2) * (m.z.w) == g3);
    assert((g2) * (m.z.w) == g3);
    assert((g1) + (g3) == g6);
    assert((m.y.x) * (m.z.y) == m.y.x * m.z.y);
    assert((m.z.x) * (m.y.y) == m.y.y * m.z.x);
    assert((m.y.x * m.z.y) - (m.y.y * m.z.x) == g7);
    assert((g7) * (m.w.w) == g8);
    assert((g7) * (m.w.w) == g8);
    assert((g6) + (g8) == g12);
    assert((m.x.x) * (g8) == g13);
    assert((m.x.x) * (g9) == g14);
    assert((m.x.x) * (g10) == g15);
    assert((m.x.x) * (g11) == g16);
    assert((m.x.x) * (g12) == g17);
    assert((m.x.x) * (g12) == g17);
    assert((m.z.x) * (m.w.y) == m.w.y * m.z.x);
    assert((m.w.x) * (m.z.y) == m.w.x * m.z.y);
    assert((m.w.y * m.z.x) - (m.w.x * m.z.y) == g0);
    assert((g0) * (m.x.w) == g18);
    assert((g0) * (m.x.w) == g18);
    assert((m.w.x) * (m.x.y) == m.w.x * m.x.y);
    assert((m.x.x) * (m.w.y) == m.w.y * m.x.x);
    assert((m.w.x * m.x.y) - (m.w.y * m.x.x) == g19);
    assert((g19) * (m.z.w) == g20);
    assert((g19) * (m.z.w) == g20);
    assert((g18) + (g20) == g23);
    assert((m.x.x) * (m.z.y) == m.x.x * m.z.y);
    assert((m.z.x) * (m.x.y) == m.x.y * m.z.x);
    assert((m.x.x * m.z.y) - (m.x.y * m.z.x) == g24);
    assert((g24) * (m.w.w) == g25);
    assert((g24) * (m.w.w) == g25);
    assert((g23) + (g25) == g29);
    assert(-(g29) == g34);
    assert((m.y.x) * (g30) == g35);
    assert((m.y.x) * (g31) == g36);
    assert((m.y.x) * (g32) == g37);
    assert((m.y.x) * (g33) == g38);
    assert((m.y.x) * (g34) == g39);
    assert((m.y.x) * (g34) == g39);
    assert((g17) + (g39) == g46);
    assert((m.y.x) * (m.w.y) == m.w.y * m.y.x);
    assert((m.w.x) * (m.y.y) == m.w.x * m.y.y);
    assert((m.w.y * m.y.x) - (m.w.x * m.y.y) == g47);
    assert((g47) * (m.x.w) == g48);
    assert((g47) * (m.x.w) == g48);
    assert((m.w.x) * (m.x.y) == m.w.x * m.x.y);
    assert((m.x.x) * (m.w.y) == m.w.y * m.x.x);
    assert((m.w.x * m.x.y) - (m.w.y * m.x.x) == g19);
    assert((g19) * (m.y.w) == g49);
    assert((g19) * (m.y.w) == g49);
    assert((g48) + (g49) == g52);
    assert((m.x.x) * (m.y.y) == m.x.x * m.y.y);
    assert((m.y.x) * (m.x.y) == m.x.y * m.y.x);
    assert((m.x.x * m.y.y) - (m.x.y * m.y.x) == g53);
    assert((g53) * (m.w.w) == g54);
    assert((g53) * (m.w.w) == g54);
    assert((g52) + (g54) == g58);
    assert((m.z.x) * (g54) == g59);
    assert((m.z.x) * (g55) == g60);
    assert((m.z.x) * (g56) == g61);
    assert((m.z.x) * (g57) == g62);
    assert((m.z.x) * (g58) == g63);
    assert((m.z.x) * (g58) == g63);
    assert((g46) + (g63) == g68);
    assert((m.y.x) * (m.z.y) == m.y.x * m.z.y);
    assert((m.z.x) * (m.y.y) == m.y.y * m.z.x);
    assert((m.y.x * m.z.y) - (m.y.y * m.z.x) == g7);
    assert((g7) * (m.x.w) == g69);
    assert((g7) * (m.x.w) == g69);
    assert((m.z.x) * (m.x.y) == m.x.y * m.z.x);
    assert((m.x.x) * (m.z.y) == m.x.x * m.z.y);
    assert((m.x.y * m.z.x) - (m.x.x * m.z.y) == g70);
    assert((g70) * (m.y.w) == g71);
    assert((g70) * (m.y.w) == g71);
    assert((g69) + (g71) == g73);
    assert((m.x.x) * (m.y.y) == m.x.x * m.y.y);
    assert((m.y.x) * (m.x.y) == m.x.y * m.y.x);
    assert((m.x.x * m.y.y) - (m.x.y * m.y.x) == g53);
    assert((g53) * (m.z.w) == g74);
    assert((g53) * (m.z.w) == g74);
    assert((g73) + (g74) == g77);
    assert(-(g77) == g82);
    assert((m.w.x) * (g78) == g83);
    assert((m.w.x) * (g79) == g84);
    assert((m.w.x) * (g80) == g85);
    assert((m.w.x) * (g81) == g86);
    assert((m.w.x) * (g82) == g87);
    assert((m.w.x) * (g82) == g87);
    assert((g68) + (g87) == 0);
    assert((m.z.x) * (m.w.y) == m.w.y * m.z.x);
    assert((m.w.x) * (m.z.y) == m.w.x * m.z.y);
    assert((m.w.y * m.z.x) - (m.w.x * m.z.y) == g0);
    assert((g0) * (m.y.w) == g1);
    assert((m.w.x) * (m.y.y) == m.w.x * m.y.y);
    assert((m.y.x) * (m.w.y) == m.w.y * m.y.x);
    assert((m.w.x * m.y.y) - (m.w.y * m.y.x) == g2);
    assert((g2) * (m.z.w) == g3);
    assert((g1) + (g3) == g6);
    assert((m.y.x) * (m.z.y) == m.y.x * m.z.y);
    assert((m.z.x) * (m.y.y) == m.y.y * m.z.x);
    assert((m.y.x * m.z.y) - (m.y.y * m.z.x) == g7);
    assert((g7) * (m.w.w) == g8);
    assert((g6) + (g8) == g12);
    assert((m.x.y) * (g8) == g88);
    assert((m.x.y) * (g9) == g89);
    assert((m.x.y) * (g10) == g90);
    assert((m.x.y) * (g11) == g91);
    assert((m.x.y) * (g12) == g92);
    assert((m.x.y) * (g12) == g92);
    assert((m.z.x) * (m.w.y) == m.w.y * m.z.x);
    assert((m.w.x) * (m.z.y) == m.w.x * m.z.y);
    assert((m.w.y * m.z.x) - (m.w.x * m.z.y) == g0);
    assert((g0) * (m.x.w) == g18);
    assert((m.w.x) * (m.x.y) == m.w.x * m.x.y);
    assert((m.x.x) * (m.w.y) == m.w.y * m.x.x);
    assert((m.w.x * m.x.y) - (m.w.y * m.x.x) == g19);
    assert((g19) * (m.z.w) == g20);
    assert((g18) + (g20) == g23);
    assert((m.x.x) * (m.z.y) == m.x.x * m.z.y);
    assert((m.z.x) * (m.x.y) == m.x.y * m.z.x);
    assert((m.x.x * m.z.y) - (m.x.y * m.z.x) == g24);
    assert((g24) * (m.w.w) == g25);
    assert((g23) + (g25) == g29);
    assert(-(g29) == g34);
    assert((m.y.y) * (g30) == g93);
    assert((m.y.y) * (g31) == g94);
    assert((m.y.y) * (g32) == g95);
    assert((m.y.y) * (g33) == g96);
    assert((m.y.y) * (g34) == g97);
    assert((m.y.y) * (g34) == g97);
    assert((g92) + (g97) == g104);
    assert((m.y.x) * (m.w.y) == m.w.y * m.y.x);
    assert((m.w.x) * (m.y.y) == m.w.x * m.y.y);
    assert((m.w.y * m.y.x) - (m.w.x * m.y.y) == g47);
    assert((g47) * (m.x.w) == g48);
    assert((m.w.x) * (m.x.y) == m.w.x * m.x.y);
    assert((m.x.x) * (m.w.y) == m.w.y * m.x.x);
    assert((m.w.x * m.x.y) - (m.w.y * m.x.x) == g19);
    assert((g19) * (m.y.w) == g49);
    assert((g48) + (g49) == g52);
    assert((m.x.x) * (m.y.y) == m.x.x * m.y.y);
    assert((m.y.x) * (m.x.y) == m.x.y * m.y.x);
    assert((m.x.x * m.y.y) - (m.x.y * m.y.x) == g53);
    assert((g53) * (m.w.w) == g54);
    assert((g52) + (g54) == g58);
    assert((m.z.y) * (g54) == g105);
    assert((m.z.y) * (g55) == g106);
    assert((m.z.y) * (g56) == g107);
    assert((m.z.y) * (g57) == g108);
    assert((m.z.y) * (g58) == g109);
    assert((m.z.y) * (g58) == g109);
    assert((g104) + (g109) == g114);
    assert((m.y.x) * (m.z.y) == m.y.x * m.z.y);
    assert((m.z.x) * (m.y.y) == m.y.y * m.z.x);
    assert((m.y.x * m.z.y) - (m.y.y * m.z.x) == g7);
    assert((g7) * (m.x.w) == g69);
    assert((m.z.x) * (m.x.y) == m.x.y * m.z.x);
    assert((m.x.x) * (m.z.y) == m.x.x * m.z.y);
    assert((m.x.y * m.z.x) - (m.x.x * m.z.y) == g70);
    assert((g70) * (m.y.w) == g71);
    assert((g69) + (g71) == g73);
    assert((m.x.x) * (m.y.y) == m.x.x * m.y.y);
    assert((m.y.x) * (m.x.y) == m.x.y * m.y.x);
    assert((m.x.x * m.y.y) - (m.x.y * m.y.x) == g53);
    assert((g53) * (m.z.w) == g74);
    assert((g73) + (g74) == g77);
    assert(-(g77) == g82);
    assert((m.w.y) * (g78) == g115);
    assert((m.w.y) * (g79) == g116);
    assert((m.w.y) * (g80) == g117);
    assert((m.w.y) * (g81) == g118);
    assert((m.w.y) * (g82) == g119);
    assert((m.w.y) * (g82) == g119);
    assert((g114) + (g119) == 0);
    assert((m.z.x) * (m.w.y) == m.w.y * m.z.x);
    assert((m.w.x) * (m.z.y) == m.w.x * m.z.y);
    assert((m.w.y * m.z.x) - (m.w.x * m.z.y) == g0);
    assert((g0) * (m.y.w) == g1);
    assert((m.w.x) * (m.y.y) == m.w.x * m.y.y);
    assert((m.y.x) * (m.w.y) == m.w.y * m.y.x);
    assert((m.w.x * m.y.y) - (m.w.y * m.y.x) == g2);
    assert((g2) * (m.z.w) == g3);
    assert((g1) + (g3) == g6);
    assert((m.y.x) * (m.z.y) == m.y.x * m.z.y);
    assert((m.z.x) * (m.y.y) == m.y.y * m.z.x);
    assert((m.y.x * m.z.y) - (m.y.y * m.z.x) == g7);
    assert((g7) * (m.w.w) == g8);
    assert((g6) + (g8) == g12);
    assert((m.x.z) * (g8) == g120);
    assert((m.x.z) * (g9) == g121);
    assert((m.x.z) * (g10) == g122);
    assert((m.x.z) * (g11) == g123);
    assert((m.x.z) * (g12) == g124);
    assert((m.x.z) * (g12) == g124);
    assert((m.z.x) * (m.w.y) == m.w.y * m.z.x);
    assert((m.w.x) * (m.z.y) == m.w.x * m.z.y);
    assert((m.w.y * m.z.x) - (m.w.x * m.z.y) == g0);
    assert((g0) * (m.x.w) == g18);
    assert((m.w.x) * (m.x.y) == m.w.x * m.x.y);
    assert((m.x.x) * (m.w.y) == m.w.y * m.x.x);
    assert((m.w.x * m.x.y) - (m.w.y * m.x.x) == g19);
    assert((g19) * (m.z.w) == g20);
    assert((g18) + (g20) == g23);
    assert((m.x.x) * (m.z.y) == m.x.x * m.z.y);
    assert((m.z.x) * (m.x.y) == m.x.y * m.z.x);
    assert((m.x.x * m.z.y) - (m.x.y * m.z.x) == g24);
    assert((g24) * (m.w.w) == g25);
    assert((g23) + (g25) == g29);
    assert(-(g29) == g34);
    assert((m.y.z) * (g30) == g125);
    assert((m.y.z) * (g31) == g126);
    assert((m.y.z) * (g32) == g127);
    assert((m.y.z) * (g33) == g128);
    assert((m.y.z) * (g34) == g129);
    assert((m.y.z) * (g34) == g129);
    assert((g124) + (g129) == g139);
    assert((m.y.x) * (m.w.y) == m.w.y * m.y.x);
    assert((m.w.x) * (m.y.y) == m.w.x * m.y.y);
    assert((m.w.y * m.y.x) - (m.w.x * m.y.y) == g47);
    assert((g47) * (m.x.w) == g48);
    assert((m.w.x) * (m.x.y) == m.w.x * m.x.y);
    assert((m.x.x) * (m.w.y) == m.w.y * m.x.x);
    assert((m.w.x * m.x.y) - (m.w.y * m.x.x) == g19);
    assert((g19) * (m.y.w) == g49);
    assert((g48) + (g49) == g52);
    assert((m.x.x) * (m.y.y) == m.x.x * m.y.y);
    assert((m.y.x) * (m.x.y) == m.x.y * m.y.x);
    assert((m.x.x * m.y.y) - (m.x.y * m.y.x) == g53);
    assert((g53) * (m.w.w) == g54);
    assert((g52) + (g54) == g58);
    assert((m.z.z) * (g54) == g140);
    assert((m.z.z) * (g55) == g141);
    assert((m.z.z) * (g56) == g142);
    assert((m.z.z) * (g57) == g143);
    assert((m.z.z) * (g58) == g144);
    assert((m.z.z) * (g58) == g144);
    assert((g139) + (g144) == g161);
    assert((m.y.x) * (m.z.y) == m.y.x * m.z.y);
    assert((m.z.x) * (m.y.y) == m.y.y * m.z.x);
    assert((m.y.x * m.z.y) - (m.y.y * m.z.x) == g7);
    assert((g7) * (m.x.w) == g69);
    assert((m.z.x) * (m.x.y) == m.x.y * m.z.x);
    assert((m.x.x) * (m.z.y) == m.x.x * m.z.y);
    assert((m.x.y * m.z.x) - (m.x.x * m.z.y) == g70);
    assert((g70) * (m.y.w) == g71);
    assert((g69) + (g71) == g73);
    assert((m.x.x) * (m.y.y) == m.x.x * m.y.y);
    assert((m.y.x) * (m.x.y) == m.x.y * m.y.x);
    assert((m.x.x * m.y.y) - (m.x.y * m.y.x) == g53);
    assert((g53) * (m.z.w) == g74);
    assert((g73) + (g74) == g77);
    assert(-(g77) == g82);
    assert((m.w.z) * (g78) == g162);
    assert((m.w.z) * (g79) == g163);
    assert((m.w.z) * (g80) == g164);
    assert((m.w.z) * (g81) == g165);
    assert((m.w.z) * (g82) == g166);
    assert((m.w.z) * (g82) == g166);
    assert((g161) + (g166) == g172);
    assert((m.z.x) * (m.w.y) == m.w.y * m.z.x);
    assert((m.w.x) * (m.z.y) == m.w.x * m.z.y);
    assert((m.w.y * m.z.x) - (m.w.x * m.z.y) == g0);
    assert((g0) * (m.y.w) == g1);
    assert((m.w.x) * (m.y.y) == m.w.x * m.y.y);
    assert((m.y.x) * (m.w.y) == m.w.y * m.y.x);
    assert((m.w.x * m.y.y) - (m.w.y * m.y.x) == g2);
    assert((g2) * (m.z.w) == g3);
    assert((g1) + (g3) == g6);
    assert((m.y.x) * (m.z.y) == m.y.x * m.z.y);
    assert((m.z.x) * (m.y.y) == m.y.y * m.z.x);
    assert((m.y.x * m.z.y) - (m.y.y * m.z.x) == g7);
    assert((g7) * (m.w.w) == g8);
    assert((g6) + (g8) == g12);
    assert((m.x.w) * (g8) == g173);
    assert((m.x.w) * (g9) == g174);
    assert((m.x.w) * (g10) == g175);
    assert((m.x.w) * (g11) == g176);
    assert((m.x.w) * (g12) == g177);
    assert((m.x.w) * (g12) == g177);
    assert((m.z.x) * (m.w.y) == m.w.y * m.z.x);
    assert((m.w.x) * (m.z.y) == m.w.x * m.z.y);
    assert((m.w.y * m.z.x) - (m.w.x * m.z.y) == g0);
    assert((g0) * (m.x.w) == g18);
    assert((m.w.x) * (m.x.y) == m.w.x * m.x.y);
    assert((m.x.x) * (m.w.y) == m.w.y * m.x.x);
    assert((m.w.x * m.x.y) - (m.w.y * m.x.x) == g19);
    assert((g19) * (m.z.w) == g20);
    assert((g18) + (g20) == g23);
    assert((m.x.x) * (m.z.y) == m.x.x * m.z.y);
    assert((m.z.x) * (m.x.y) == m.x.y * m.z.x);
    assert((m.x.x * m.z.y) - (m.x.y * m.z.x) == g24);
    assert((g24) * (m.w.w) == g25);
    assert((g23) + (g25) == g29);
    assert(-(g29) == g34);
    assert((m.y.w) * (g30) == g178);
    assert((m.y.w) * (g31) == g179);
    assert((m.y.w) * (g32) == g180);
    assert((m.y.w) * (g33) == g181);
    assert((m.y.w) * (g34) == g182);
    assert((m.y.w) * (g34) == g182);
    assert((g177) + (g182) == g188);
    assert((m.y.x) * (m.w.y) == m.w.y * m.y.x);
    assert((m.w.x) * (m.y.y) == m.w.x * m.y.y);
    assert((m.w.y * m.y.x) - (m.w.x * m.y.y) == g47);
    assert((g47) * (m.x.w) == g48);
    assert((m.w.x) * (m.x.y) == m.w.x * m.x.y);
    assert((m.x.x) * (m.w.y) == m.w.y * m.x.x);
    assert((m.w.x * m.x.y) - (m.w.y * m.x.x) == g19);
    assert((g19) * (m.y.w) == g49);
    assert((g48) + (g49) == g52);
    assert((m.x.x) * (m.y.y) == m.x.x * m.y.y);
    assert((m.y.x) * (m.x.y) == m.x.y * m.y.x);
    assert((m.x.x * m.y.y) - (m.x.y * m.y.x) == g53);
    assert((g53) * (m.w.w) == g54);
    assert((g52) + (g54) == g58);
    assert((m.z.w) * (g54) == g189);
    assert((m.z.w) * (g55) == g190);
    assert((m.z.w) * (g56) == g191);
    assert((m.z.w) * (g57) == g192);
    assert((m.z.w) * (g58) == g193);
    assert((m.z.w) * (g58) == g193);
    assert((g188) + (g193) == g196);
    assert((m.y.x) * (m.z.y) == m.y.x * m.z.y);
    assert((m.z.x) * (m.y.y) == m.y.y * m.z.x);
    assert((m.y.x * m.z.y) - (m.y.y * m.z.x) == g7);
    assert((g7) * (m.x.w) == g69);
    assert((m.z.x) * (m.x.y) == m.x.y * m.z.x);
    assert((m.x.x) * (m.z.y) == m.x.x * m.z.y);
    assert((m.x.y * m.z.x) - (m.x.x * m.z.y) == g70);
    assert((g70) * (m.y.w) == g71);
    assert((g69) + (g71) == g73);
    assert((m.x.x) * (m.y.y) == m.x.x * m.y.y);
    assert((m.y.x) * (m.x.y) == m.x.y * m.y.x);
    assert((m.x.x * m.y.y) - (m.x.y * m.y.x) == g53);
    assert((g53) * (m.z.w) == g74);
    assert((g73) + (g74) == g77);
    assert(-(g77) == g82);
    assert((m.w.w) * (g78) == g197);
    assert((m.w.w) * (g79) == g198);
    assert((m.w.w) * (g80) == g199);
    assert((m.w.w) * (g81) == g200);
    assert((m.w.w) * (g82) == g201);
    assert((m.w.w) * (g82) == g201);
    assert((g196) + (g201) == 0);
    assert((m.z.y) * (m.w.z) == m.w.z * m.z.y);
    assert((m.w.y) * (m.z.z) == m.w.y * m.z.z);
    assert((m.w.z * m.z.y) - (m.w.y * m.z.z) == g202);
    assert((g202) * (m.y.w) == g203);
    assert((g202) * (m.y.w) == g203);
    assert((m.w.y) * (m.y.z) == m.w.y * m.y.z);
    assert((m.y.y) * (m.w.z) == m.w.z * m.y.y);
    assert((m.w.y * m.y.z) - (m.w.z * m.y.y) == g204);
    assert((g204) * (m.z.w) == g205);
    assert((g204) * (m.z.w) == g205);
    assert((g203) + (g205) == g208);
    assert((m.y.y) * (m.z.z) == m.y.y * m.z.z);
    assert((m.z.y) * (m.y.z) == m.y.z * m.z.y);
    assert((m.y.y * m.z.z) - (m.y.z * m.z.y) == g209);
    assert((g209) * (m.w.w) == g210);
    assert((g209) * (m.w.w) == g210);
    assert((g208) + (g210) == g214);
    assert((m.x.x) * (g210) == g145);
    assert((m.x.x) * (g211) == g215);
    assert((m.x.x) * (g212) == g216);
    assert((m.x.x) * (g213) == g217);
    assert((m.x.x) * (g214) == g218);
    assert((m.x.x) * (g214) == g218);
    assert((m.z.y) * (m.w.z) == m.w.z * m.z.y);
    assert((m.w.y) * (m.z.z) == m.w.y * m.z.z);
    assert((m.w.z * m.z.y) - (m.w.y * m.z.z) == g202);
    assert((g202) * (m.x.w) == g219);
    assert((g202) * (m.x.w) == g219);
    assert((m.w.y) * (m.x.z) == m.w.y * m.x.z);
    assert((m.x.y) * (m.w.z) == m.w.z * m.x.y);
    assert((m.w.y * m.x.z) - (m.w.z * m.x.y) == g220);
    assert((g220) * (m.z.w) == g221);
    assert((g220) * (m.z.w) == g221);
    assert((g219) + (g221) == g224);
    assert((m.x.y) * (m.z.z) == m.x.y * m.z.z);
    assert((m.z.y) * (m.x.z) == m.x.z * m.z.y);
    assert((m.x.y * m.z.z) - (m.x.z * m.z.y) == g225);
    assert((g225) * (m.w.w) == g226);
    assert((g225) * (m.w.w) == g226);
    assert((g224) + (g226) == g230);
    assert((m.y.x) * (g226) == g231);
    assert((m.y.x) * (g227) == g232);
    assert((m.y.x) * (g228) == g233);
    assert((m.y.x) * (g229) == g234);
    assert((m.y.x) * (g230) == g235);
    assert((m.y.x) * (g230) == g235);
    assert((g218) - (g235) == g244);
    assert((m.y.y) * (m.w.z) == m.w.z * m.y.y);
    assert((m.w.y) * (m.y.z) == m.w.y * m.y.z);
    assert((m.w.z * m.y.y) - (m.w.y * m.y.z) == g245);
    assert((g245) * (m.x.w) == g246);
    assert((g245) * (m.x.w) == g246);
    assert((m.w.y) * (m.x.z) == m.w.y * m.x.z);
    assert((m.x.y) * (m.w.z) == m.w.z * m.x.y);
    assert((m.w.y * m.x.z) - (m.w.z * m.x.y) == g220);
    assert((g220) * (m.y.w) == g247);
    assert((g220) * (m.y.w) == g247);
    assert((g246) + (g247) == g250);
    assert((m.x.y) * (m.y.z) == m.x.y * m.y.z);
    assert((m.y.y) * (m.x.z) == m.x.z * m.y.y);
    assert((m.x.y * m.y.z) - (m.x.z * m.y.y) == g251);
    assert((g251) * (m.w.w) == g252);
    assert((g251) * (m.w.w) == g252);
    assert((g250) + (g252) == g256);
    assert((m.z.x) * (g252) == g257);
    assert((m.z.x) * (g253) == g258);
    assert((m.z.x) * (g254) == g259);
    assert((m.z.x) * (g255) == g260);
    assert((m.z.x) * (g256) == g261);
    assert((m.z.x) * (g256) == g261);
    assert((g244) + (g261) == g273);
    assert((m.y.y) * (m.z.z) == m.y.y * m.z.z);
    assert((m.z.y) * (m.y.z) == m.y.z * m.z.y);
    assert((m.y.y * m.z.z) - (m.y.z * m.z.y) == g209);
    assert((g209) * (m.x.w) == g274);
    assert((g209) * (m.x.w) == g274);
    assert((m.z.y) * (m.x.z) == m.x.z * m.z.y);
    assert((m.x.y) * (m.z.z) == m.x.y * m.z.z);
    assert((m.x.z * m.z.y) - (m.x.y * m.z.z) == g275);
    assert((g275) * (m.y.w) == g276);
    assert((g275) * (m.y.w) == g276);
    assert((g274) + (g276) == g278);
    assert((m.x.y) * (m.y.z) == m.x.y * m.y.z);
    assert((m.y.y) * (m.x.z) == m.x.z * m.y.y);
    assert((m.x.y * m.y.z) - (m.x.z * m.y.y) == g251);
    assert((g251) * (m.z.w) == g279);
    assert((g251) * (m.z.w) == g279);
    assert((g278) + (g279) == g282);
    assert((m.w.x) * (g274) == g283);
    assert((m.w.x) * (g277) == g284);
    assert((m.w.x) * (g280) == g285);
    assert((m.w.x) * (g281) == g286);
    assert((m.w.x) * (g282) == g287);
    assert((m.w.x) * (g282) == g287);
    assert((g273) - (g287) == g172);
}

proof fn adj4_col_w(m: M4)
    ensures
        m4_vec_mul(m, m4_adjugate(m).w).x == 0,
        m4_vec_mul(m, m4_adjugate(m).w).y == 0,
        m4_vec_mul(m, m4_adjugate(m).w).z == 0,
        m4_vec_mul(m, m4_adjugate(m).w).w == m4_det(m).n,
{
    let g0: int = (0 - m.w.x * m.z.y) + m.w.y * m.z.x;
    let g1: int = (0 - m.w.x * m.y.z * m.z.y) + m.w.y * m.y.z * m.z.x;
    let g2: int = m.w.x * m.y.y - m.w.y * m.y.x;
    let g3: int = m.w.x * m.y.y * m.z.z - m.w.y * m.y.x * m.z.z;
    let g4: int = m.w.x * m.y.y * m.z.z - m.w.x * m.y.z * m.z.y;
    let g5: int = g4 - m.w.y * m.y.x * m.z.z;
    let g6: int = g5 + m.w.y * m.y.z * m.z.x;
    let g7: int = m.y.x * m.z.y - m.y.y * m.z.x;
    let g8: int = m.w.z * m.y.x * m.z.y - m.w.z * m.y.y * m.z.x;
    let g9: int = g6 + m.w.z * m.y.x * m.z.y;
    let g10: int = g9 - m.w.z * m.y.y * m.z.x;
    let g11: int = (0 - m.w.x * m.y.y * m.z.z) + m.w.x * m.y.z * m.z.y;
    let g12: int = g11 + m.w.y * m.y.x * m.z.z;
    let g13: int = g12 - m.w.y * m.y.z * m.z.x;
    let g14: int = g13 - m.w.z * m.y.x * m.z.y;
    let g15: int = g14 + m.w.z * m.y.y * m.z.x;
    let g16: int = (0 - m.w.x * m.x.x * m.y.y * m.z.z) + m.w.x * m.x.x * m.y.z * m.z.y;
    let g17: int = g16 + m.w.y * m.x.x * m.y.x * m.z.z;
    let g18: int = g17 - m.w.y * m.x.x * m.y.z * m.z.x;
    let g19: int = g18 - m.w.z * m.x.x * m.y.x * m.z.y;
    let g20: int = g19 + m.w.z * m.x.x * m.y.y * m.z.x;
    let g21: int = (0 - m.w.x * m.x.z * m.z.y) + m.w.y * m.x.z * m.z.x;
    let g22: int = m.w.x * m.x.y - m.w.y * m.x.x;
    let g23: int = m.w.x * m.x.y * m.z.z - m.w.y * m.x.x * m.z.z;
    let g24: int = m.w.x * m.x.y * m.z.z - m.w.x * m.x.z * m.z.y;
    let g25: int = g24 - m.w.y * m.x.x * m.z.z;
    let g26: int = g25 + m.w.y * m.x.z * m.z.x;
    let g27: int = m.x.x * m.z.y - m.x.y * m.z.x;
    let g28: int = m.w.z * m.x.x * m.z.y - m.w.z * m.x.y * m.z.x;
    let g29: int = g26 + m.w.z * m.x.x * m.z.y;
    let g30: int = g29 - m.w.z * m.x.y * m.z.x;
    let g31: int = m.w.x * m.x.y * m.y.x * m.z.z - m.w.x * m.x.z * m.y.x * m.z.y;
    let g32: int = g31 - m.w.y * m.x.x * m.y.x * m.z.z;
    let g33: int = g32 + m.w.y * m.x.z * m.y.x * m.z.x;
    let g34: int = g33 + m.w.z * m.x.x * m.y.x * m.z.y;
    let g35: int = g34 - m.w.z * m.x.y * m.y.x * m.z.x;
    let g36: int = g16 + m.w.x * m.x.y * m.y.x * m.z.z;
    let g37: int = g36 - m.w.x * m.x.z * m.y.x * m.z.y;
    let g38: int = g37 - m.w.y * m.x.x * m.y.z * m.z.x;
    let g39: int = g38 + m.w.y * m.x.z * m.y.x * m.z.x;
    let g40: int = g39 + m.w.z * m.x.x * m.y.y * m.z.x;
    let g41: int = g40 - m.w.z * m.x.y * m.y.x * m.z.x;
    let g42: int = (0 - m.w.x * m.y.y) + m.w.y * m.y.x;
    let g43: int = (0 - m.w.x * m.x.z * m.y.y) + m.w.y * m.x.z * m.y.x;
    let g44: int = m.w.x * m.x.y * m.y.z - m.w.y * m.x.x * m.y.z;
    let g45: int = m.w.x * m.x.y * m.y.z - m.w.x * m.x.z * m.y.y;
    let g46: int = g45 - m.w.y * m.x.x * m.y.z;
    let g47: int = g46 + m.w.y * m.x.z * m.y.x;
    let g48: int = m.x.x * m.y.y - m.x.y * m.y.x;
    let g49: int = m.w.z * m.x.x * m.y.y - m.w.z * m.x.y * m.y.x;
    let g50: int = g47 + m.w.z * m.x.x * m.y.y;
    let g51: int = g50 - m.w.z * m.x.y * m.y.x;
    let g52: int = (0 - m.w.x * m.x.y * m.y.z) + m.w.x * m.x.z * m.y.y;
    let g53: int = g52 + m.w.y * m.x.x * m.y.z;
    let g54: int = g53 - m.w.y * m.x.z * m.y.x;
    let g55: int = g54 - m.w.z * m.x.x * m.y.y;
    let g56: int = g55 + m.w.z * m.x.y * m.y.x;
    let g57: int = (0 - m.w.x * m.x.y * m.y.z * m.z.x) + m.w.x * m.x.z * m.y.y * m.z.x;
    let g58: int = g57 + m.w.y * m.x.x * m.y.z * m.z.x;
    let g59: int = g58 - m.w.y * m.x.z * m.y.x * m.z.x;
    let g60: int = g59 - m.w.z * m.x.x * m.y.y * m.z.x;
    let g61: int = g60 + m.w.z * m.x.y * m.y.x * m.z.x;
    let g62: int = g36 - m.w.x * m.x.y * m.y.z * m.z.x;
    let g63: int = g62 - m.w.x * m.x.z * m.y.x * m.z.y;
    let g64: int = g63 + m.w.x * m.x.z * m.y.y * m.z.x;
    let g65: int = m.x.z * m.y.x * m.z.y - m.x.z * m.y.y * m.z.x;
    let g66: int = (0 - m.x.x * m.z.y) + m.x.y * m.z.x;
    let g67: int = (0 - m.x.x * m.y.z * m.z.y) + m.x.y * m.y.z * m.z.x;
    let g68: int = g67 + m.x.z * m.y.x * m.z.y;
    let g69: int = g68 - m.x.z * m.y.y * m.z.x;
    let g70: int = m.x.x * m.y.y * m.z.z - m.x.y * m.y.x * m.z.z;
    let g71: int = m.x.x * m.y.y * m.z.z - m.x.x * m.y.z * m.z.y;
    let g72: int = g71 - m.x.y * m.y.x * m.z.z;
    let g73: int = g72 + m.x.y * m.y.z * m.z.x;
    let g74: int = g73 + m.x.z * m.y.x * m.z.y;
    let g75: int = g74 - m.x.z * m.y.y * m.z.x;
    let g76: int = m.w.x * m.x.x * m.y.y * m.z.z - m.w.x * m.x.x * m.y.z * m.z.y;
    let g77: int = g76 - m.w.x * m.x.y * m.y.x * m.z.z;
    let g78: int = g77 + m.w.x * m.x.y * m.y.z * m.z.x;
    let g79: int = g78 + m.w.x * m.x.z * m.y.x * m.z.y;
    let g80: int = g79 - m.w.x * m.x.z * m.y.y * m.z.x;
    let g81: int = (0 - m.w.x * m.x.y * m.y.y * m.z.z) + m.w.x * m.x.y * m.y.z * m.z.y;
    let g82: int = g81 + m.w.y * m.x.y * m.y.x * m.z.z;
    let g83: int = g82 - m.w.y * m.x.y * m.y.z * m.z.x;
    let g84: int = g83 - m.w.z * m.x.y * m.y.x * m.z.y;
    let g85: int = g84 + m.w.z * m.x.y * m.y.y * m.z.x;
    let g86: int = m.w.x * m.x.y * m.y.y * m.z.z - m.w.x * m.x.z * m.y.y * m.z.y;
    let g87: int = g86 - m.w.y * m.x.x * m.y.y * m.z.z;
    let g88: int = g87 + m.w.y * m.x.z * m.y.y * m.z.x;
    let g89: int = g88 + m.w.z * m.x.x * m.y.y * m.z.y;
    let g90: int = g89 - m.w.z * m.x.y * m.y.y * m.z.x;
    let g91: int = m.w.x * m.x.y * m.y.z * m.z.y - m.w.x * m.x.z * m.y.y * m.z.y;
    let g92: int = g91 - m.w.y * m.x.x * m.y.y * m.z.z;
    let g93: int = g92 + m.w.y * m.x.y * m.y.x * m.z.z;
    let g94: int = g93 - m.w.y * m.x.y * m.y.z * m.z.x;
    let g95: int = g94 + m.w.y * m.x.z * m.y.y * m.z.x;
    let g96: int = g95 + m.w.z * m.x.x * m.y.y * m.z.y;
    let g97: int = g96 - m.w.z * m.x.y * m.y.x * m.z.y;
    let g98: int = (0 - m.w.x * m.x.y * m.y.z * m.z.y) + m.w.x * m.x.z * m.y.y * m.z.y;
    let g99: int = g98 + m.w.y * m.x.x * m.y.z * m.z.y;
    let g100: int = g99 - m.w.y * m.x.z * m.y.x * m.z.y;
    let g101: int = g100 - m.w.z * m.x.x * m.y.y * m.z.y;
    let g102: int = g101 + m.w.z * m.x.y * m.y.x * m.z.y;
    let g103: int = (0 - m.w.y * m.x.x * m.y.y * m.z.z) + m.w.y * m.x.x * m.y.z * m.z.y;
    let g104: int = g103 + m.w.y * m.x.y * m.y.x * m.z.z;
    let g105: int = g104 - m.w.y * m.x.y * m.y.z * m.z.x;
    let g106: int = g105 - m.w.y * m.x.z * m.y.x * m.z.y;
    let g107: int = g106 + m.w.y * m.x.z * m.y.y * m.z.x;
    let g108: int = m.w.y * m.x.x * m.y.y * m.z.z - m.w.y * m.x.x * m.y.z * m.z.y;
    let g109: int = g108 - m.w.y * m.x.y * m.y.x * m.z.z;
    let g110: int = g109 + m.w.y * m.x.y * m.y.z * m.z.x;
    let g111: int = g110 + m.w.y * m.x.z * m.y.x * m.z.y;
    let g112: int = g111 - m.w.y * m.x.z * m.y.y * m.z.x;
    let g113: int = (0 - m.w.x * m.x.z * m.y.y * m.z.z) + m.w.x * m.x.z * m.y.z * m.z.y;
    let g114: int = g113 + m.w.y * m.x.z * m.y.x * m.z.z;
    let g115: int = g114 - m.w.y * m.x.z * m.y.z * m.z.x;
    let g116: int = g115 - m.w.z * m.x.z * m.y.x * m.z.y;
    let g117: int = g116 + m.w.z * m.x.z * m.y.y * m.z.x;
    let g118: int = m.w.x * m.x.y * m.y.z * m.z.z - m.w.x * m.x.z * m.y.z * m.z.y;
    let g119: int = g118 - m.w.y * m.x.x * m.y.z * m.z.z;
    let g120: int = g119 + m.w.y * m.x.z * m.y.z * m.z.x;
    let g121: int = g120 + m.w.z * m.x.x * m.y.z * m.z.y;
    let g122: int = g121 - m.w.z * m.x.y * m.y.z * m.z.x;
    let g123: int = m.w.x * m.x.y * m.y.z * m.z.z - m.w.x * m.x.z * m.y.y * m.z.z;
    let g124: int = g123 - m.w.y * m.x.x * m.y.z * m.z.z;
    let g125: int = g124 + m.w.y * m.x.z * m.y.x * m.z.z;
    let g126: int = g125 + m.w.z * m.x.x * m.y.z * m.z.y;
    let g127: int = g126 - m.w.z * m.x.y * m.y.z * m.z.x;
    let g128: int = g127 - m.w.z * m.x.z * m.y.x * m.z.y;
    let g129: int = g128 + m.w.z * m.x.z * m.y.y * m.z.x;
    let g130: int = (0 - m.w.x * m.x.y * m.y.z * m.z.z) + m.w.x * m.x.z * m.y.y * m.z.z;
    let g131: int = g130 + m.w.y * m.x.x * m.y.z * m.z.z;
    let g132: int = g131 - m.w.y * m.x.z * m.y.x * m.z.z;
    let g133: int = g132 - m.w.z * m.x.x * m.y.y * m.z.z;
    let g134: int = g133 + m.w.z * m.x.y * m.y.x * m.z.z;
    let g135: int = (0 - m.w.z * m.x.x * m.y.y * m.z.z) + m.w.z * m.x.x * m.y.z * m.z.y;
    let g136: int = g135 + m.w.z * m.x.y * m.y.x * m.z.z;
    let g137: int = g136 - m.w.z * m.x.y * m.y.z * m.z.x;
    let g138: int = g137 - m.w.z * m.x.z * m.y.x * m.z.y;
    let g139: int = g138 + m.w.z * m.x.z * m.y.y * m.z.x;
    let g140: int = m.w.z * m.x.x * m.y.y * m.z.z - m.w.z * m.x.x * m.y.z * m.z.y;
    let g141: int = g140 - m.w.z * m.x.y * m.y.x * m.z.z;
    let g142: int = g141 + m.w.z * m.x.y * m.y.z * m.z.x;
    let g143: int = g142 + m.w.z * m.x.z * m.y.x * m.z.y;
    let g144: int = g143 - m.w.z * m.x.z * m.y.y * m.z.x;
    let g145: int = (0 - m.w.x * m.x.w * m.y.y * m.z.z) + m.w.x * m.x.w * m.y.z * m.z.y;
    let g146: int = g145 + m.w.y * m.x.w * m.y.x * m.z.z;
    let g147: int = g146 - m.w.y * m.x.w * m.y.z * m.z.x;
    let g148: int = g147 - m.w.z * m.x.w * m.y.x * m.z.y;
    let g149: int = g148 + m.w.z * m.x.w * m.y.y * m.z.x;
    let g150: int = m.w.x * m.x.y * m.y.w * m.z.z - m.w.x * m.x.z * m.y.w * m.z.y;
    let g151: int = g150 - m.w.y * m.x.x * m.y.w * m.z.z;
    let g152: int = g151 + m.w.y * m.x.z * m.y.w * m.z.x;
    let g153: int = g152 + m.w.z * m.x.x * m.y.w * m.z.y;
    let g154: int = g153 - m.w.z * m.x.y * m.y.w * m.z.x;
    let g155: int = g145 + m.w.x * m.x.y * m.y.w * m.z.z;
    let g156: int = g155 - m.w.x * m.x.z * m.y.w * m.z.y;
    let g157: int = g156 + m.w.y * m.x.w * m.y.x * m.z.z;
    let g158: int = g157 - m.w.y * m.x.w * m.y.z * m.z.x;
    let g159: int = g158 - m.w.y * m.x.x * m.y.w * m.z.z;
    let g160: int = g159 + m.w.y * m.x.z * m.y.w * m.z.x;
    let g161: int = g160 - m.w.z * m.x.w * m.y.x * m.z.y;
    let g162: int = g161 + m.w.z * m.x.w * m.y.y * m.z.x;
    let g163: int = g162 + m.w.z * m.x.x * m.y.w * m.z.y;
    let g164: int = g163 - m.w.z * m.x.y * m.y.w * m.z.x;
    let g165: int = (0 - m.w.x * m.x.y * m.y.z * m.z.w) + m.w.x * m.x.z * m.y.y * m.z.w;
    let g166: int = g165 + m.w.y * m.x.x * m.y.z * m.z.w;
    let g167: int = g166 - m.w.y * m.x.z * m.y.x * m.z.w;
    let g168: int = g167 - m.w.z * m.x.x * m.y.y * m.z.w;
    let g169: int = g168 + m.w.z * m.x.y * m.y.x * m.z.w;
    let g170: int = g155 - m.w.x * m.x.y * m.y.z * m.z.w;
    let g171: int = g170 - m.w.x * m.x.z * m.y.w * m.z.y;
    let g172: int = g171 + m.w.x * m.x.z * m.y.y * m.z.w;
    let g173: int = g172 + m.w.y * m.x.w * m.y.x * m.z.z;
    let g174: int = g173 - m.w.y * m.x.w * m.y.z * m.z.x;
    let g175: int = g174 - m.w.y * m.x.x * m.y.w * m.z.z;
    let g176: int = g175 + m.w.y * m.x.x * m.y.z * m.z.w;
    let g177: int = g176 + m.w.y * m.x.z * m.y.w * m.z.x;
    let g178: int = g177 - m.w.y * m.x.z * m.y.x * m.z.w;
    let g179: int = g178 - m.w.z * m.x.w * m.y.x * m.z.y;
    let g180: int = g179 + m.w.z * m.x.w * m.y.y * m.z.x;
    let g181: int = g180 + m.w.z * m.x.x * m.y.w * m.z.y;
    let g182: int = g181 - m.w.z * m.x.x * m.y.y * m.z.w;
    let g183: int = g182 - m.w.z * m.x.y * m.y.w * m.z.x;
    let g184: int = g183 + m.w.z * m.x.y * m.y.x * m.z.w;
    let g185: int = m.w.w * m.x.x * m.y.y * m.z.z - m.w.w * m.x.x * m.y.z * m.z.y;
    let g186: int = g185 - m.w.w * m.x.y * m.y.x * m.z.z;
    let g187: int = g186 + m.w.w * m.x.y * m.y.z * m.z.x;
    let g188: int = g187 + m.w.w * m.x.z * m.y.x * m.z.y;
    let g189: int = g188 - m.w.w * m.x.z * m.y.y * m.z.x;
    let g190: int = g189 - m.w.x * m.x.w * m.y.y * m.z.z;
    let g191: int = g190 + m.w.x * m.x.w * m.y.z * m.z.y;
    let g192: int = g191 + m.w.x * m.x.y * m.y.w * m.z.z;
    let g193: int = g192 - m.w.x * m.x.y * m.y.z * m.z.w;
    let g194: int = g193 - m.w.x * m.x.z * m.y.w * m.z.y;
    let g195: int = g194 + m.w.x * m.x.z * m.y.y * m.z.w;
    let g196: int = g195 + m.w.y * m.x.w * m.y.x * m.z.z;
    let g197: int = g196 - m.w.y * m.x.w * m.y.z * m.z.x;
    let g198: int = g197 - m.w.y * m.x.x * m.y.w * m.z.z;
    let g199: int = g198 + m.w.y * m.x.x * m.y.z * m.z.w;
    let g200: int = g199 + m.w.y * m.x.z * m.y.w * m.z.x;
    let g201: int = g200 - m.w.y * m.x.z * m.y.x * m.z.w;
    let g202: int = g201 - m.w.z * m.x.w * m.y.x * m.z.y;
    let g203: int = g202 + m.w.z * m.x.w * m.y.y * m.z.x;
    let g204: int = g203 + m.w.z * m.x.x * m.y.w * m.z.y;
    let g205: int = g204 - m.w.z * m.x.x * m.y.y * m.z.w;
    let g206: int = g205 - m.w.z * m.x.y * m.y.w * m.z.x;
    let g207: int = g206 + m.w.z * m.x.y * m.y.x * m.z.w;
    let g208: int = (0 - m.w.y * m.z.z) + m.w.z * m.z.y;
    let g209: int = (0 - m.w.y * m.y.w * m.z.z) + m.w.z * m.y.w * m.z.y;
    let g210: int = m.w.y * m.y.z - m.w.z * m.y.y;
    let g211: int = m.w.y * m.y.z * m.z.w - m.w.z * m.y.y * m.z.w;
    let g212: int = (0 - m.w.y * m.y.w * m.z.z) + m.w.y * m.y.z * m.z.w;
    let g213: int = g212 + m.w.z * m.y.w * m.z.y;
    let g214: int = g213 - m.w.z * m.y.y * m.z.w;
    let g215: int = m.y.y * m.z.z - m.y.z * m.z.y;
    let g216: int = m.w.w * m.y.y * m.z.z - m.w.w * m.y.z * m.z.y;
    let g217: int = g216 - m.w.y * m.y.w * m.z.z;
    let g218: int = g217 + m.w.y * m.y.z * m.z.w;
    let g219: int = g218 + m.w.z * m.y.w * m.z.y;
    let g220: int = g219 - m.w.z * m.y.y * m.z.w;
    let g221: int = g185 - m.w.y * m.x.x * m.y.w * m.z.z;
    let g222: int = g221 + m.w.y * m.x.x * m.y.z * m.z.w;
    let g223: int = g222 + m.w.z * m.x.x * m.y.w * m.z.y;
    let g224: int = g223 - m.w.z * m.x.x * m.y.y * m.z.w;
    let g225: int = (0 - m.w.y * m.x.w * m.z.z) + m.w.z * m.x.w * m.z.y;
    let g226: int = m.w.y * m.x.z - m.w.z * m.x.y;
    let g227: int = m.w.y * m.x.z * m.z.w - m.w.z * m.x.y * m.z.w;
    let g228: int = (0 - m.w.y * m.x.w * m.z.z) + m.w.y * m.x.z * m.z.w;
    let g229: int = g228 + m.w.z * m.x.w * m.z.y;
    let g230: int = g229 - m.w.z * m.x.y * m.z.w;
    let g231: int = m.x.y * m.z.z - m.x.z * m.z.y;
    let g232: int = m.w.w * m.x.y * m.z.z - m.w.w * m.x.z * m.z.y;
    let g233: int = g232 - m.w.y * m.x.w * m.z.z;
    let g234: int = g233 + m.w.y * m.x.z * m.z.w;
    let g235: int = g234 + m.w.z * m.x.w * m.z.y;
    let g236: int = g235 - m.w.z * m.x.y * m.z.w;
    let g237: int = m.w.w * m.x.y * m.y.x * m.z.z - m.w.w * m.x.z * m.y.x * m.z.y;
    let g238: int = g237 - m.w.y * m.x.w * m.y.x * m.z.z;
    let g239: int = g238 + m.w.y * m.x.z * m.y.x * m.z.w;
    let g240: int = g239 + m.w.z * m.x.w * m.y.x * m.z.y;
    let g241: int = g240 - m.w.z * m.x.y * m.y.x * m.z.w;
    let g242: int = g186 + m.w.w * m.x.z * m.y.x * m.z.y;
    let g243: int = g242 + m.w.y * m.x.w * m.y.x * m.z.z;
    let g244: int = g243 - m.w.y * m.x.x * m.y.w * m.z.z;
    let g245: int = g244 + m.w.y * m.x.x * m.y.z * m.z.w;
    let g246: int = g245 - m.w.y * m.x.z * m.y.x * m.z.w;
    let g247: int = g246 - m.w.z * m.x.w * m.y.x * m.z.y;
    let g248: int = g247 + m.w.z * m.x.x * m.y.w * m.z.y;
    let g249: int = g248 - m.w.z * m.x.x * m.y.y * m.z.w;
    let g250: int = g249 + m.w.z * m.x.y * m.y.x * m.z.w;
    let g251: int = (0 - m.w.y * m.y.z) + m.w.z * m.y.y;
    let g252: int = (0 - m.w.y * m.x.w * m.y.z) + m.w.z * m.x.w * m.y.y;
    let g253: int = m.w.y * m.x.z * m.y.w - m.w.z * m.x.y * m.y.w;
    let g254: int = (0 - m.w.y * m.x.w * m.y.z) + m.w.y * m.x.z * m.y.w;
    let g255: int = g254 + m.w.z * m.x.w * m.y.y;
    let g256: int = g255 - m.w.z * m.x.y * m.y.w;
    let g257: int = m.x.y * m.y.z - m.x.z * m.y.y;
    let g258: int = m.w.w * m.x.y * m.y.z - m.w.w * m.x.z * m.y.y;
    let g259: int = g258 - m.w.y * m.x.w * m.y.z;
    let g260: int = g259 + m.w.y * m.x.z * m.y.w;
    let g261: int = g260 + m.w.z * m.x.w * m.y.y;
    let g262: int = g261 - m.w.z * m.x.y * m.y.w;
    let g263: int = m.w.w * m.x.y * m.y.z * m.z.x - m.w.w * m.x.z * m.y.y * m.z.x;
    let g264: int = g263 - m.w.y * m.x.w * m.y.z * m.z.x;
    let g265: int = g264 + m.w.y * m.x.z * m.y.w * m.z.x;
    let g266: int = g265 + m.w.z * m.x.w * m.y.y * m.z.x;
    let g267: int = g266 - m.w.z * m.x.y * m.y.w * m.z.x;
    let g268: int = g189 + m.w.y * m.x.w * m.y.x * m.z.z;
    let g269: int = g268 - m.w.y * m.x.w * m.y.z * m.z.x;
    let g270: int = g269 - m.w.y * m.x.x * m.y.w * m.z.z;
    let g271: int = g270 + m.w.y * m.x.x * m.y.z * m.z.w;
    let g272: int = g271 + m.w.y * m.x.z * m.y.w * m.z.x;
    let g273: int = g272 - m.w.y * m.x.z * m.y.x * m.z.w;
    let g274: int = g273 - m.w.z * m.x.w * m.y.x * m.z.y;
    let g275: int = g274 + m.w.z * m.x.w * m.y.y * m.z.x;
    let g276: int = g275 + m.w.z * m.x.x * m.y.w * m.z.y;
    let g277: int = g276 - m.w.z * m.x.x * m.y.y * m.z.w;
    let g278: int = g277 - m.w.z * m.x.y * m.y.w * m.z.x;
    let g279: int = g278 + m.w.z * m.x.y * m.y.x * m.z.w;
    let g280: int = m.x.w * m.y.y * m.z.z - m.x.w * m.y.z * m.z.y;
    let g281: int = (0 - m.x.y * m.z.z) + m.x.z * m.z.y;
    let g282: int = (0 - m.x.y * m.y.w * m.z.z) + m.x.z * m.y.w * m.z.y;
    let g283: int = g280 - m.x.y * m.y.w * m.z.z;
    let g284: int = g283 + m.x.z * m.y.w * m.z.y;
    let g285: int = m.x.y * m.y.z * m.z.w - m.x.z * m.y.y * m.z.w;
    let g286: int = g283 + m.x.y * m.y.z * m.z.w;
    let g287: int = g286 + m.x.z * m.y.w * m.z.y;
    let g288: int = g287 - m.x.z * m.y.y * m.z.w;
    let g289: int = m.w.x * m.x.w * m.y.y * m.z.z - m.w.x * m.x.w * m.y.z * m.z.y;
    let g290: int = g289 - m.w.x * m.x.y * m.y.w * m.z.z;
    let g291: int = g290 + m.w.x * m.x.y * m.y.z * m.z.w;
    let g292: int = g291 + m.w.x * m.x.z * m.y.w * m.z.y;
    let g293: int = g292 - m.w.x * m.x.z * m.y.y * m.z.w;
    assert(m.z.x * m.w.y == m.w.y * m.z.x
        && ((0 - m.w.x * m.z.y) + m.w.y * m.z.x) * (m.y.z) == (0 - m.w.x * m.z.y) * (m.y.z) + (m.w.y * m.z.x) * (m.y.z)
        && ((0 - m.w.x * m.z.y)) * (m.y.z) == (0 - m.w.x * m.y.z * m.z.y)
        && (m.w.y * m.z.x) * m.y.z == m.w.y * m.y.z * m.z.x
    ) by (nonlinear_arith);
    assert(m.y.x * m.w.y == m.w.y * m.y.x
        && (m.w.x * m.y.y - m.w.y * m.y.x) * (m.z.z) == m.w.x * m.y.y * (m.z.z) - (m.w.y * m.y.x) * (m.z.z)
        && m.z.x * m.y.y == m.y.y * m.z.x
        && (m.y.x * m.z.y - m.y.y * m.z.x) * (m.w.z) == m.y.x * m.z.y * (m.w.z) - (m.y.y * m.z.x) * (m.w.z)
    ) by (nonlinear_arith);
    assert((m.y.x * m.z.y) * m.w.z == m.w.z * m.y.x * m.z.y
        && (m.y.y * m.z.x) * m.w.z == m.w.z * m.y.y * m.z.x
        && (m.x.x) * (g14 + m.w.z * m.y.y * m.z.x) == (m.x.x) * (g14) + (m.x.x) * (m.w.z * m.y.y * m.z.x)
    ) by (nonlinear_arith);
    assert((m.x.x) * (g13 - m.w.z * m.y.x * m.z.y) == (m.x.x) * (g13) - (m.x.x) * (m.w.z * m.y.x * m.z.y)
        && (m.x.x) * (g12 - m.w.y * m.y.z * m.z.x) == (m.x.x) * (g12) - (m.x.x) * (m.w.y * m.y.z * m.z.x)
    ) by (nonlinear_arith);
    assert((m.x.x) * (g11 + m.w.y * m.y.x * m.z.z) == (m.x.x) * (g11) + (m.x.x) * (m.w.y * m.y.x * m.z.z)
        && (m.x.x) * ((0 - m.w.x * m.y.y * m.z.z) + m.w.x * m.y.z * m.z.y) == (m.x.x) * ((0 - m.w.x * m.y.y * m.z.z)) + (m.x.x) * (m.w.x * m.y.z * m.z.y)
    ) by (nonlinear_arith);
    assert((m.x.x) * ((0 - m.w.x * m.y.y * m.z.z)) == (0 - m.w.x * m.x.x * m.y.y * m.z.z)
        && m.x.x * (m.w.x * m.y.z * m.z.y) == m.w.x * m.x.x * m.y.z * m.z.y
        && m.x.x * (m.w.y * m.y.x * m.z.z) == m.w.y * m.x.x * m.y.x * m.z.z
    ) by (nonlinear_arith);
    assert(m.x.x * (m.w.y * m.y.z * m.z.x) == m.w.y * m.x.x * m.y.z * m.z.x
        && m.x.x * (m.w.z * m.y.x * m.z.y) == m.w.z * m.x.x * m.y.x * m.z.y
        && m.x.x * (m.w.z * m.y.y * m.z.x) == m.w.z * m.x.x * m.y.y * m.z.x
    ) by (nonlinear_arith);
    assert(((0 - m.w.x * m.z.y) + m.w.y * m.z.x) * (m.x.z) == (0 - m.w.x * m.z.y) * (m.x.z) + (m.w.y * m.z.x) * (m.x.z)
        && ((0 - m.w.x * m.z.y)) * (m.x.z) == (0 - m.w.x * m.x.z * m.z.y)
        && (m.w.y * m.z.x) * m.x.z == m.w.y * m.x.z * m.z.x
        && m.x.x * m.w.y == m.w.y * m.x.x
    ) by (nonlinear_arith);
    assert((m.w.x * m.x.y - m.w.y * m.x.x) * (m.z.z) == m.w.x * m.x.y * (m.z.z) - (m.w.y * m.x.x) * (m.z.z)
        && m.z.x * m.x.y == m.x.y * m.z.x
        && (m.x.x * m.z.y - m.x.y * m.z.x) * (m.w.z) == m.x.x * m.z.y * (m.w.z) - (m.x.y * m.z.x) * (m.w.z)
    ) by (nonlinear_arith);
    assert((m.x.x * m.z.y) * m.w.z == m.w.z * m.x.x * m.z.y
        && (m.x.y * m.z.x) * m.w.z == m.w.z * m.x.y * m.z.x
        && (m.y.x) * (g29 - m.w.z * m.x.y * m.z.x) == (m.y.x) * (g29) - (m.y.x) * (m.w.z * m.x.y * m.z.x)
    ) by (nonlinear_arith);
    assert((m.y.x) * (g26 + m.w.z * m.x.x * m.z.y) == (m.y.x) * (g26) + (m.y.x) * (m.w.z * m.x.x * m.z.y)
        && (m.y.x) * (g25 + m.w.y * m.x.z * m.z.x) == (m.y.x) * (g25) + (m.y.x) * (m.w.y * m.x.z * m.z.x)
    ) by (nonlinear_arith);
    assert((m.y.x) * (g24 - m.w.y * m.x.x * m.z.z) == (m.y.x) * (g24) - (m.y.x) * (m.w.y * m.x.x * m.z.z)
        && (m.y.x) * (m.w.x * m.x.y * m.z.z - m.w.x * m.x.z * m.z.y) == (m.y.x) * (m.w.x * m.x.y * m.z.z) - (m.y.x) * (m.w.x * m.x.z * m.z.y)
    ) by (nonlinear_arith);
    assert(m.y.x * (m.w.x * m.x.y * m.z.z) == m.w.x * m.x.y * m.y.x * m.z.z
        && m.y.x * (m.w.x * m.x.z * m.z.y) == m.w.x * m.x.z * m.y.x * m.z.y
        && m.y.x * (m.w.y * m.x.x * m.z.z) == m.w.y * m.x.x * m.y.x * m.z.z
    ) by (nonlinear_arith);
    assert(m.y.x * (m.w.y * m.x.z * m.z.x) == m.w.y * m.x.z * m.y.x * m.z.x
        && m.y.x * (m.w.z * m.x.x * m.z.y) == m.w.z * m.x.x * m.y.x * m.z.y
        && m.y.x * (m.w.z * m.x.y * m.z.x) == m.w.z * m.x.y * m.y.x * m.z.x
    ) by (nonlinear_arith);
    assert(((0 - m.w.x * m.y.y) + m.w.y * m.y.x) * (m.x.z) == (0 - m.w.x * m.y.y) * (m.x.z) + (m.w.y * m.y.x) * (m.x.z)
        && ((0 - m.w.x * m.y.y)) * (m.x.z) == (0 - m.w.x * m.x.z * m.y.y)
        && (m.w.y * m.y.x) * m.x.z == m.w.y * m.x.z * m.y.x
    ) by (nonlinear_arith);
    assert((m.w.x * m.x.y - m.w.y * m.x.x) * (m.y.z) == m.w.x * m.x.y * (m.y.z) - (m.w.y * m.x.x) * (m.y.z)
        && m.y.x * m.x.y == m.x.y * m.y.x
        && (m.x.x * m.y.y - m.x.y * m.y.x) * (m.w.z) == m.x.x * m.y.y * (m.w.z) - (m.x.y * m.y.x) * (m.w.z)
    ) by (nonlinear_arith);
    assert((m.x.x * m.y.y) * m.w.z == m.w.z * m.x.x * m.y.y
        && (m.x.y * m.y.x) * m.w.z == m.w.z * m.x.y * m.y.x
        && (m.z.x) * (g55 + m.w.z * m.x.y * m.y.x) == (m.z.x) * (g55) + (m.z.x) * (m.w.z * m.x.y * m.y.x)
    ) by (nonlinear_arith);
    assert((m.z.x) * (g54 - m.w.z * m.x.x * m.y.y) == (m.z.x) * (g54) - (m.z.x) * (m.w.z * m.x.x * m.y.y)
        && (m.z.x) * (g53 - m.w.y * m.x.z * m.y.x) == (m.z.x) * (g53) - (m.z.x) * (m.w.y * m.x.z * m.y.x)
    ) by (nonlinear_arith);
    assert((m.z.x) * (g52 + m.w.y * m.x.x * m.y.z) == (m.z.x) * (g52) + (m.z.x) * (m.w.y * m.x.x * m.y.z)
        && (m.z.x) * ((0 - m.w.x * m.x.y * m.y.z) + m.w.x * m.x.z * m.y.y) == (m.z.x) * ((0 - m.w.x * m.x.y * m.y.z)) + (m.z.x) * (m.w.x * m.x.z * m.y.y)
    ) by (nonlinear_arith);
    assert((m.z.x) * ((0 - m.w.x * m.x.y * m.y.z)) == (0 - m.w.x * m.x.y * m.y.z * m.z.x)
        && m.z.x * (m.w.x * m.x.z * m.y.y) == m.w.x * m.x.z * m.y.y * m.z.x
        && m.z.x * (m.w.y * m.x.x * m.y.z) == m.w.y * m.x.x * m.y.z * m.z.x
    ) by (nonlinear_arith);
    assert(m.z.x * (m.w.y * m.x.z * m.y.x) == m.w.y * m.x.z * m.y.x * m.z.x
        && m.z.x * (m.w.z * m.x.x * m.y.y) == m.w.z * m.x.x * m.y.y * m.z.x
        && m.z.x * (m.w.z * m.x.y * m.y.x) == m.w.z * m.x.y * m.y.x * m.z.x
    ) by (nonlinear_arith);
    assert((m.y.x * m.z.y - m.y.y * m.z.x) * (m.x.z) == m.y.x * m.z.y * (m.x.z) - (m.y.y * m.z.x) * (m.x.z)
        && (m.y.x * m.z.y) * m.x.z == m.x.z * m.y.x * m.z.y
        && (m.y.y * m.z.x) * m.x.z == m.x.z * m.y.y * m.z.x
    ) by (nonlinear_arith);
    assert(((0 - m.x.x * m.z.y) + m.x.y * m.z.x) * (m.y.z) == (0 - m.x.x * m.z.y) * (m.y.z) + (m.x.y * m.z.x) * (m.y.z)
        && ((0 - m.x.x * m.z.y)) * (m.y.z) == (0 - m.x.x * m.y.z * m.z.y)
        && (m.x.y * m.z.x) * m.y.z == m.x.y * m.y.z * m.z.x
    ) by (nonlinear_arith);
    assert((m.x.x * m.y.y - m.x.y * m.y.x) * (m.z.z) == m.x.x * m.y.y * (m.z.z) - (m.x.y * m.y.x) * (m.z.z)
        && (m.w.x) * (g74 - m.x.z * m.y.y * m.z.x) == (m.w.x) * (g74) - (m.w.x) * (m.x.z * m.y.y * m.z.x)
    ) by (nonlinear_arith);
    assert((m.w.x) * (g73 + m.x.z * m.y.x * m.z.y) == (m.w.x) * (g73) + (m.w.x) * (m.x.z * m.y.x * m.z.y)
        && (m.w.x) * (g72 + m.x.y * m.y.z * m.z.x) == (m.w.x) * (g72) + (m.w.x) * (m.x.y * m.y.z * m.z.x)
    ) by (nonlinear_arith);
    assert((m.w.x) * (g71 - m.x.y * m.y.x * m.z.z) == (m.w.x) * (g71) - (m.w.x) * (m.x.y * m.y.x * m.z.z)
        && (m.w.x) * (m.x.x * m.y.y * m.z.z - m.x.x * m.y.z * m.z.y) == (m.w.x) * (m.x.x * m.y.y * m.z.z) - (m.w.x) * (m.x.x * m.y.z * m.z.y)
    ) by (nonlinear_arith);
    assert(m.w.x * (m.x.x * m.y.y * m.z.z) == m.w.x * m.x.x * m.y.y * m.z.z
        && m.w.x * (m.x.x * m.y.z * m.z.y) == m.w.x * m.x.x * m.y.z * m.z.y
        && m.w.x * (m.x.y * m.y.x * m.z.z) == m.w.x * m.x.y * m.y.x * m.z.z
    ) by (nonlinear_arith);
    assert(m.w.x * (m.x.y * m.y.z * m.z.x) == m.w.x * m.x.y * m.y.z * m.z.x
        && m.w.x * (m.x.z * m.y.x * m.z.y) == m.w.x * m.x.z * m.y.x * m.z.y
        && m.w.x * (m.x.z * m.y.y * m.z.x) == m.w.x * m.x.z * m.y.y * m.z.x
    ) by (nonlinear_arith);
    assert((m.x.y) * (g14 + m.w.z * m.y.y * m.z.x) == (m.x.y) * (g14) + (m.x.y) * (m.w.z * m.y.y * m.z.x)
        && (m.x.y) * (g13 - m.w.z * m.y.x * m.z.y) == (m.x.y) * (g13) - (m.x.y) * (m.w.z * m.y.x * m.z.y)
    ) by (nonlinear_arith);
    assert((m.x.y) * (g12 - m.w.y * m.y.z * m.z.x) == (m.x.y) * (g12) - (m.x.y) * (m.w.y * m.y.z * m.z.x)
        && (m.x.y) * (g11 + m.w.y * m.y.x * m.z.z) == (m.x.y) * (g11) + (m.x.y) * (m.w.y * m.y.x * m.z.z)
    ) by (nonlinear_arith);
    assert((m.x.y) * ((0 - m.w.x * m.y.y * m.z.z) + m.w.x * m.y.z * m.z.y) == (m.x.y) * ((0 - m.w.x * m.y.y * m.z.z)) + (m.x.y) * (m.w.x * m.y.z * m.z.y)
        && (m.x.y) * ((0 - m.w.x * m.y.y * m.z.z)) == (0 - m.w.x * m.x.y * m.y.y * m.z.z)
    ) by (nonlinear_arith);
    assert(m.x.y * (m.w.x * m.y.z * m.z.y) == m.w.x * m.x.y * m.y.z * m.z.y
        && m.x.y * (m.w.y * m.y.x * m.z.z) == m.w.y * m.x.y * m.y.x * m.z.z
        && m.x.y * (m.w.y * m.y.z * m.z.x) == m.w.y * m.x.y * m.y.z * m.z.x
    ) by (nonlinear_arith);
    assert(m.x.y * (m.w.z * m.y.x * m.z.y) == m.w.z * m.x.y * m.y.x * m.z.y
        && m.x.y * (m.w.z * m.y.y * m.z.x) == m.w.z * m.x.y * m.y.y * m.z.x
    ) by (nonlinear_arith);
    assert((m.y.y) * (g29 - m.w.z * m.x.y * m.z.x) == (m.y.y) * (g29) - (m.y.y) * (m.w.z * m.x.y * m.z.x)
        && (m.y.y) * (g26 + m.w.z * m.x.x * m.z.y) == (m.y.y) * (g26) + (m.y.y) * (m.w.z * m.x.x * m.z.y)
    ) by (nonlinear_arith);
    assert((m.y.y) * (g25 + m.w.y * m.x.z * m.z.x) == (m.y.y) * (g25) + (m.y.y) * (m.w.y * m.x.z * m.z.x)
        && (m.y.y) * (g24 - m.w.y * m.x.x * m.z.z) == (m.y.y) * (g24) - (m.y.y) * (m.w.y * m.x.x * m.z.z)
    ) by (nonlinear_arith);
    assert((m.y.y) * (m.w.x * m.x.y * m.z.z - m.w.x * m.x.z * m.z.y) == (m.y.y) * (m.w.x * m.x.y * m.z.z) - (m.y.y) * (m.w.x * m.x.z * m.z.y)
        && m.y.y * (m.w.x * m.x.y * m.z.z) == m.w.x * m.x.y * m.y.y * m.z.z
    ) by (nonlinear_arith);
    assert(m.y.y * (m.w.x * m.x.z * m.z.y) == m.w.x * m.x.z * m.y.y * m.z.y
        && m.y.y * (m.w.y * m.x.x * m.z.z) == m.w.y * m.x.x * m.y.y * m.z.z
        && m.y.y * (m.w.y * m.x.z * m.z.x) == m.w.y * m.x.z * m.y.y * m.z.x
    ) by (nonlinear_arith);
    assert(m.y.y * (m.w.z * m.x.x * m.z.y) == m.w.z * m.x.x * m.y.y * m.z.y
        && m.y.y * (m.w.z * m.x.y * m.z.x) == m.w.z * m.x.y * m.y.y * m.z.x
    ) by (nonlinear_arith);
    assert((m.z.y) * (g55 + m.w.z * m.x.y * m.y.x) == (m.z.y) * (g55) + (m.z.y) * (m.w.z * m.x.y * m.y.x)
        && (m.z.y) * (g54 - m.w.z * m.x.x * m.y.y) == (m.z.y) * (g54) - (m.z.y) * (m.w.z * m.x.x * m.y.y)
    ) by (nonlinear_arith);
    assert((m.z.y) * (g53 - m.w.y * m.x.z * m.y.x) == (m.z.y) * (g53) - (m.z.y) * (m.w.y * m.x.z * m.y.x)
        && (m.z.y) * (g52 + m.w.y * m.x.x * m.y.z) == (m.z.y) * (g52) + (m.z.y) * (m.w.y * m.x.x * m.y.z)
    ) by (nonlinear_arith);
    assert((m.z.y) * ((0 - m.w.x * m.x.y * m.y.z) + m.w.x * m.x.z * m.y.y) == (m.z.y) * ((0 - m.w.x * m.x.y * m.y.z)) + (m.z.y) * (m.w.x * m.x.z * m.y.y)
        && (m.z.y) * ((0 - m.w.x * m.x.y * m.y.z)) == (0 - m.w.x * m.x.y * m.y.z * m.z.y)
    ) by (nonlinear_arith);
    assert(m.z.y * (m.w.x * m.x.z * m.y.y) == m.w.x * m.x.z * m.y.y * m.z.y
        && m.z.y * (m.w.y * m.x.x * m.y.z) == m.w.y * m.x.x * m.y.z * m.z.y
        && m.z.y * (m.w.y * m.x.z * m.y.x) == m.w.y * m.x.z * m.y.x * m.z.y
    ) by (nonlinear_arith);
    assert(m.z.y * (m.w.z * m.x.x * m.y.y) == m.w.z * m.x.x * m.y.y * m.z.y
        && m.z.y * (m.w.z * m.x.y * m.y.x) == m.w.z * m.x.y * m.y.x * m.z.y
    ) by (nonlinear_arith);
    assert((m.w.y) * (g74 - m.x.z * m.y.y * m.z.x) == (m.w.y) * (g74) - (m.w.y) * (m.x.z * m.y.y * m.z.x)
        && (m.w.y) * (g73 + m.x.z * m.y.x * m.z.y) == (m.w.y) * (g73) + (m.w.y) * (m.x.z * m.y.x * m.z.y)
    ) by (nonlinear_arith);
    assert((m.w.y) * (g72 + m.x.y * m.y.z * m.z.x) == (m.w.y) * (g72) + (m.w.y) * (m.x.y * m.y.z * m.z.x)
        && (m.w.y) * (g71 - m.x.y * m.y.x * m.z.z) == (m.w.y) * (g71) - (m.w.y) * (m.x.y * m.y.x * m.z.z)
    ) by (nonlinear_arith);
    assert((m.w.y) * (m.x.x * m.y.y * m.z.z - m.x.x * m.y.z * m.z.y) == (m.w.y) * (m.x.x * m.y.y * m.z.z) - (m.w.y) * (m.x.x * m.y.z * m.z.y)
        && m.w.y * (m.x.x * m.y.y * m.z.z) == m.w.y * m.x.x * m.y.y * m.z.z
    ) by (nonlinear_arith);
    assert(m.w.y * (m.x.x * m.y.z * m.z.y) == m.w.y * m.x.x * m.y.z * m.z.y
        && m.w.y * (m.x.y * m.y.x * m.z.z) == m.w.y * m.x.y * m.y.x * m.z.z
        && m.w.y * (m.x.y * m.y.z * m.z.x) == m.w.y * m.x.y * m.y.z * m.z.x
    ) by (nonlinear_arith);
    assert(m.w.y * (m.x.z * m.y.x * m.z.y) == m.w.y * m.x.z * m.y.x * m.z.y
        && m.w.y * (m.x.z * m.y.y * m.z.x) == m.w.y * m.x.z * m.y.y * m.z.x
    ) by (nonlinear_arith);
    assert((m.x.z) * (g14 + m.w.z * m.y.y * m.z.x) == (m.x.z) * (g14) + (m.x.z) * (m.w.z * m.y.y * m.z.x)
        && (m.x.z) * (g13 - m.w.z * m.y.x * m.z.y) == (m.x.z) * (g13) - (m.x.z) * (m.w.z * m.y.x * m.z.y)
    ) by (nonlinear_arith);
    assert((m.x.z) * (g12 - m.w.y * m.y.z * m.z.x) == (m.x.z) * (g12) - (m.x.z) * (m.w.y * m.y.z * m.z.x)
        && (m.x.z) * (g11 + m.w.y * m.y.x * m.z.z) == (m.x.z) * (g11) + (m.x.z) * (m.w.y * m.y.x * m.z.z)
    ) by (nonlinear_arith);
    assert((m.x.z) * ((0 - m.w.x * m.y.y * m.z.z) + m.w.x * m.y.z * m.z.y) == (m.x.z) * ((0 - m.w.x * m.y.y * m.z.z)) + (m.x.z) * (m.w.x * m.y.z * m.z.y)
        && (m.x.z) * ((0 - m.w.x * m.y.y * m.z.z)) == (0 - m.w.x * m.x.z * m.y.y * m.z.z)
    ) by (nonlinear_arith);
    assert(m.x.z * (m.w.x * m.y.z * m.z.y) == m.w.x * m.x.z * m.y.z * m.z.y
        && m.x.z * (m.w.y * m.y.x * m.z.z) == m.w.y * m.x.z * m.y.x * m.z.z
        && m.x.z * (m.w.y * m.y.z * m.z.x) == m.w.y * m.x.z * m.y.z * m.z.x
    ) by (nonlinear_arith);
    assert(m.x.z * (m.w.z * m.y.x * m.z.y) == m.w.z * m.x.z * m.y.x * m.z.y
        && m.x.z * (m.w.z * m.y.y * m.z.x) == m.w.z * m.x.z * m.y.y * m.z.x
    ) by (nonlinear_arith);
    assert((m.y.z) * (g29 - m.w.z * m.x.y * m.z.x) == (m.y.z) * (g29) - (m.y.z) * (m.w.z * m.x.y * m.z.x)
        && (m.y.z) * (g26 + m.w.z * m.x.x * m.z.y) == (m.y.z) * (g26) + (m.y.z) * (m.w.z * m.x.x * m.z.y)
    ) by (nonlinear_arith);
    assert((m.y.z) * (g25 + m.w.y * m.x.z * m.z.x) == (m.y.z) * (g25) + (m.y.z) * (m.w.y * m.x.z * m.z.x)
        && (m.y.z) * (g24 - m.w.y * m.x.x * m.z.z) == (m.y.z) * (g24) - (m.y.z) * (m.w.y * m.x.x * m.z.z)
    ) by (nonlinear_arith);
    assert((m.y.z) * (m.w.x * m.x.y * m.z.z - m.w.x * m.x.z * m.z.y) == (m.y.z) * (m.w.x * m.x.y * m.z.z) - (m.y.z) * (m.w.x * m.x.z * m.z.y)
        && m.y.z * (m.w.x * m.x.y * m.z.z) == m.w.x * m.x.y * m.y.z * m.z.z
    ) by (nonlinear_arith);
    assert(m.y.z * (m.w.x * m.x.z * m.z.y) == m.w.x * m.x.z * m.y.z * m.z.y
        && m.y.z * (m.w.y * m.x.x * m.z.z) == m.w.y * m.x.x * m.y.z * m.z.z
        && m.y.z * (m.w.y * m.x.z * m.z.x) == m.w.y * m.x.z * m.y.z * m.z.x
    ) by (nonlinear_arith);
    assert(m.y.z * (m.w.z * m.x.x * m.z.y) == m.w.z * m.x.x * m.y.z * m.z.y
        && m.y.z * (m.w.z * m.x.y * m.z.x) == m.w.z * m.x.y * m.y.z * m.z.x
    ) by (nonlinear_arith);
    assert((m.z.z) * (g55 + m.w.z * m.x.y * m.y.x) == (m.z.z) * (g55) + (m.z.z) * (m.w.z * m.x.y * m.y.x)
        && (m.z.z) * (g54 - m.w.z * m.x.x * m.y.y) == (m.z.z) * (g54) - (m.z.z) * (m.w.z * m.x.x * m.y.y)
    ) by (nonlinear_arith);
    assert((m.z.z) * (g53 - m.w.y * m.x.z * m.y.x) == (m.z.z) * (g53) - (m.z.z) * (m.w.y * m.x.z * m.y.x)
        && (m.z.z) * (g52 + m.w.y * m.x.x * m.y.z) == (m.z.z) * (g52) + (m.z.z) * (m.w.y * m.x.x * m.y.z)
    ) by (nonlinear_arith);
    assert((m.z.z) * ((0 - m.w.x * m.x.y * m.y.z) + m.w.x * m.x.z * m.y.y) == (m.z.z) * ((0 - m.w.x * m.x.y * m.y.z)) + (m.z.z) * (m.w.x * m.x.z * m.y.y)
        && (m.z.z) * ((0 - m.w.x * m.x.y * m.y.z)) == (0 - m.w.x * m.x.y * m.y.z * m.z.z)
    ) by (nonlinear_arith);
    assert(m.z.z * (m.w.x * m.x.z * m.y.y) == m.w.x * m.x.z * m.y.y * m.z.z
        && m.z.z * (m.w.y * m.x.x * m.y.z) == m.w.y * m.x.x * m.y.z * m.z.z
        && m.z.z * (m.w.y * m.x.z * m.y.x) == m.w.y * m.x.z * m.y.x * m.z.z
    ) by (nonlinear_arith);
    assert(m.z.z * (m.w.z * m.x.x * m.y.y) == m.w.z * m.x.x * m.y.y * m.z.z
        && m.z.z * (m.w.z * m.x.y * m.y.x) == m.w.z * m.x.y * m.y.x * m.z.z
    ) by (nonlinear_arith);
    assert((m.w.z) * (g74 - m.x.z * m.y.y * m.z.x) == (m.w.z) * (g74) - (m.w.z) * (m.x.z * m.y.y * m.z.x)
        && (m.w.z) * (g73 + m.x.z * m.y.x * m.z.y) == (m.w.z) * (g73) + (m.w.z) * (m.x.z * m.y.x * m.z.y)
    ) by (nonlinear_arith);
    assert((m.w.z) * (g72 + m.x.y * m.y.z * m.z.x) == (m.w.z) * (g72) + (m.w.z) * (m.x.y * m.y.z * m.z.x)
        && (m.w.z) * (g71 - m.x.y * m.y.x * m.z.z) == (m.w.z) * (g71) - (m.w.z) * (m.x.y * m.y.x * m.z.z)
    ) by (nonlinear_arith);
    assert((m.w.z) * (m.x.x * m.y.y * m.z.z - m.x.x * m.y.z * m.z.y) == (m.w.z) * (m.x.x * m.y.y * m.z.z) - (m.w.z) * (m.x.x * m.y.z * m.z.y)
        && m.w.z * (m.x.x * m.y.y * m.z.z) == m.w.z * m.x.x * m.y.y * m.z.z
    ) by (nonlinear_arith);
    assert(m.w.z * (m.x.x * m.y.z * m.z.y) == m.w.z * m.x.x * m.y.z * m.z.y
        && m.w.z * (m.x.y * m.y.x * m.z.z) == m.w.z * m.x.y * m.y.x * m.z.z
        && m.w.z * (m.x.y * m.y.z * m.z.x) == m.w.z * m.x.y * m.y.z * m.z.x
    ) by (nonlinear_arith);
    assert(m.w.z * (m.x.z * m.y.x * m.z.y) == m.w.z * m.x.z * m.y.x * m.z.y
        && m.w.z * (m.x.z * m.y.y * m.z.x) == m.w.z * m.x.z * m.y.y * m.z.x
    ) by (nonlinear_arith);
    assert((m.x.w) * (g14 + m.w.z * m.y.y * m.z.x) == (m.x.w) * (g14) + (m.x.w) * (m.w.z * m.y.y * m.z.x)
        && (m.x.w) * (g13 - m.w.z * m.y.x * m.z.y) == (m.x.w) * (g13) - (m.x.w) * (m.w.z * m.y.x * m.z.y)
    ) by (nonlinear_arith);
    assert((m.x.w) * (g12 - m.w.y * m.y.z * m.z.x) == (m.x.w) * (g12) - (m.x.w) * (m.w.y * m.y.z * m.z.x)
        && (m.x.w) * (g11 + m.w.y * m.y.x * m.z.z) == (m.x.w) * (g11) + (m.x.w) * (m.w.y * m.y.x * m.z.z)
    ) by (nonlinear_arith);
    assert((m.x.w) * ((0 - m.w.x * m.y.y * m.z.z) + m.w.x * m.y.z * m.z.y) == (m.x.w) * ((0 - m.w.x * m.y.y * m.z.z)) + (m.x.w) * (m.w.x * m.y.z * m.z.y)
        && (m.x.w) * ((0 - m.w.x * m.y.y * m.z.z)) == (0 - m.w.x * m.x.w * m.y.y * m.z.z)
    ) by (nonlinear_arith);
    assert(m.x.w * (m.w.x * m.y.z * m.z.y) == m.w.x * m.x.w * m.y.z * m.z.y
        && m.x.w * (m.w.y * m.y.x * m.z.z) == m.w.y * m.x.w * m.y.x * m.z.z
        && m.x.w * (m.w.y * m.y.z * m.z.x) == m.w.y * m.x.w * m.y.z * m.z.x
    ) by (nonlinear_arith);
    assert(m.x.w * (m.w.z * m.y.x * m.z.y) == m.w.z * m.x.w * m.y.x * m.z.y
        && m.x.w * (m.w.z * m.y.y * m.z.x) == m.w.z * m.x.w * m.y.y * m.z.x
    ) by (nonlinear_arith);
    assert((m.y.w) * (g29 - m.w.z * m.x.y * m.z.x) == (m.y.w) * (g29) - (m.y.w) * (m.w.z * m.x.y * m.z.x)
        && (m.y.w) * (g26 + m.w.z * m.x.x * m.z.y) == (m.y.w) * (g26) + (m.y.w) * (m.w.z * m.x.x * m.z.y)
    ) by (nonlinear_arith);
    assert((m.y.w) * (g25 + m.w.y * m.x.z * m.z.x) == (m.y.w) * (g25) + (m.y.w) * (m.w.y * m.x.z * m.z.x)
        && (m.y.w) * (g24 - m.w.y * m.x.x * m.z.z) == (m.y.w) * (g24) - (m.y.w) * (m.w.y * m.x.x * m.z.z)
    ) by (nonlinear_arith);
    assert((m.y.w) * (m.w.x * m.x.y * m.z.z - m.w.x * m.x.z * m.z.y) == (m.y.w) * (m.w.x * m.x.y * m.z.z) - (m.y.w) * (m.w.x * m.x.z * m.z.y)
        && m.y.w * (m.w.x * m.x.y * m.z.z) == m.w.x * m.x.y * m.y.w * m.z.z
    ) by (nonlinear_arith);
    assert(m.y.w * (m.w.x * m.x.z * m.z.y) == m.w.x * m.x.z * m.y.w * m.z.y
        && m.y.w * (m.w.y * m.x.x * m.z.z) == m.w.y * m.x.x * m.y.w * m.z.z
        && m.y.w * (m.w.y * m.x.z * m.z.x) == m.w.y * m.x.z * m.y.w * m.z.x
    ) by (nonlinear_arith);
    assert(m.y.w * (m.w.z * m.x.x * m.z.y) == m.w.z * m.x.x * m.y.w * m.z.y
        && m.y.w * (m.w.z * m.x.y * m.z.x) == m.w.z * m.x.y * m.y.w * m.z.x
    ) by (nonlinear_arith);
    assert((m.z.w) * (g55 + m.w.z * m.x.y * m.y.x) == (m.z.w) * (g55) + (m.z.w) * (m.w.z * m.x.y * m.y.x)
        && (m.z.w) * (g54 - m.w.z * m.x.x * m.y.y) == (m.z.w) * (g54) - (m.z.w) * (m.w.z * m.x.x * m.y.y)
    ) by (nonlinear_arith);
    assert((m.z.w) * (g53 - m.w.y * m.x.z * m.y.x) == (m.z.w) * (g53) - (m.z.w) * (m.w.y * m.x.z * m.y.x)
        && (m.z.w) * (g52 + m.w.y * m.x.x * m.y.z) == (m.z.w) * (g52) + (m.z.w) * (m.w.y * m.x.x * m.y.z)
    ) by (nonlinear_arith);
    assert((m.z.w) * ((0 - m.w.x * m.x.y * m.y.z) + m.w.x * m.x.z * m.y.y) == (m.z.w) * ((0 - m.w.x * m.x.y * m.y.z)) + (m.z.w) * (m.w.x * m.x.z * m.y.y)
        && (m.z.w) * ((0 - m.w.x * m.x.y * m.y.z)) == (0 - m.w.x * m.x.y * m.y.z * m.z.w)
    ) by (nonlinear_arith);
    assert(m.z.w * (m.w.x * m.x.z * m.y.y) == m.w.x * m.x.z * m.y.y * m.z.w
        && m.z.w * (m.w.y * m.x.x * m.y.z) == m.w.y * m.x.x * m.y.z * m.z.w
        && m.z.w * (m.w.y * m.x.z * m.y.x) == m.w.y * m.x.z * m.y.x * m.z.w
    ) by (nonlinear_arith);
    assert(m.z.w * (m.w.z * m.x.x * m.y.y) == m.w.z * m.x.x * m.y.y * m.z.w
        && m.z.w * (m.w.z * m.x.y * m.y.x) == m.w.z * m.x.y * m.y.x * m.z.w
    ) by (nonlinear_arith);
    assert((m.w.w) * (g74 - m.x.z * m.y.y * m.z.x) == (m.w.w) * (g74) - (m.w.w) * (m.x.z * m.y.y * m.z.x)
        && (m.w.w) * (g73 + m.x.z * m.y.x * m.z.y) == (m.w.w) * (g73) + (m.w.w) * (m.x.z * m.y.x * m.z.y)
    ) by (nonlinear_arith);
    assert((m.w.w) * (g72 + m.x.y * m.y.z * m.z.x) == (m.w.w) * (g72) + (m.w.w) * (m.x.y * m.y.z * m.z.x)
        && (m.w.w) * (g71 - m.x.y * m.y.x * m.z.z) == (m.w.w) * (g71) - (m.w.w) * (m.x.y * m.y.x * m.z.z)
    ) by (nonlinear_arith);
    assert((m.w.w) * (m.x.x * m.y.y * m.z.z - m.x.x * m.y.z * m.z.y) == (m.w.w) * (m.x.x * m.y.y * m.z.z) - (m.w.w) * (m.x.x * m.y.z * m.z.y)
        && m.w.w * (m.x.x * m.y.y * m.z.z) == m.w.w * m.x.x * m.y.y * m.z.z
    ) by (nonlinear_arith);
    assert(m.w.w * (m.x.x * m.y.z * m.z.y) == m.w.w * m.x.x * m.y.z * m.z.y
        && m.w.w * (m.x.y * m.y.x * m.z.z) == m.w.w * m.x.y * m.y.x * m.z.z
        && m.w.w * (m.x.y * m.y.z * m.z.x) == m.w.w * m.x.y * m.y.z * m.z.x
    ) by (nonlinear_arith);
    assert(m.w.w * (m.x.z * m.y.x * m.z.y) == m.w.w * m.x.z * m.y.x * m.z.y
        && m.w.w * (m.x.z * m.y.y * m.z.x) == m.w.w * m.x.z * m.y.y * m.z.x
        && m.z.y * m.w.z == m.w.z * m.z.y
    ) by (nonlinear_arith);
    assert(((0 - m.w.y * m.z.z) + m.w.z * m.z.y) * (m.y.w) == (0 - m.w.y * m.z.z) * (m.y.w) + (m.w.z * m.z.y) * (m.y.w)
        && ((0 - m.w.y * m.z.z)) * (m.y.w) == (0 - m.w.y * m.y.w * m.z.z)
        && (m.w.z * m.z.y) * m.y.w == m.w.z * m.y.w * m.z.y
        && m.y.y * m.w.z == m.w.z * m.y.y
    ) by (nonlinear_arith);
    assert((m.w.y * m.y.z - m.w.z * m.y.y) * (m.z.w) == m.w.y * m.y.z * (m.z.w) - (m.w.z * m.y.y) * (m.z.w)
        && m.z.y * m.y.z == m.y.z * m.z.y
        && (m.y.y * m.z.z - m.y.z * m.z.y) * (m.w.w) == m.y.y * m.z.z * (m.w.w) - (m.y.z * m.z.y) * (m.w.w)
    ) by (nonlinear_arith);
    assert((m.y.y * m.z.z) * m.w.w == m.w.w * m.y.y * m.z.z
        && (m.y.z * m.z.y) * m.w.w == m.w.w * m.y.z * m.z.y
        && (m.x.x) * (g219 - m.w.z * m.y.y * m.z.w) == (m.x.x) * (g219) - (m.x.x) * (m.w.z * m.y.y * m.z.w)
    ) by (nonlinear_arith);
    assert((m.x.x) * (g218 + m.w.z * m.y.w * m.z.y) == (m.x.x) * (g218) + (m.x.x) * (m.w.z * m.y.w * m.z.y)
        && (m.x.x) * (g217 + m.w.y * m.y.z * m.z.w) == (m.x.x) * (g217) + (m.x.x) * (m.w.y * m.y.z * m.z.w)
    ) by (nonlinear_arith);
    assert((m.x.x) * (g216 - m.w.y * m.y.w * m.z.z) == (m.x.x) * (g216) - (m.x.x) * (m.w.y * m.y.w * m.z.z)
        && (m.x.x) * (m.w.w * m.y.y * m.z.z - m.w.w * m.y.z * m.z.y) == (m.x.x) * (m.w.w * m.y.y * m.z.z) - (m.x.x) * (m.w.w * m.y.z * m.z.y)
    ) by (nonlinear_arith);
    assert(m.x.x * (m.w.w * m.y.y * m.z.z) == m.w.w * m.x.x * m.y.y * m.z.z
        && m.x.x * (m.w.w * m.y.z * m.z.y) == m.w.w * m.x.x * m.y.z * m.z.y
        && m.x.x * (m.w.y * m.y.w * m.z.z) == m.w.y * m.x.x * m.y.w * m.z.z
    ) by (nonlinear_arith);
    assert(m.x.x * (m.w.y * m.y.z * m.z.w) == m.w.y * m.x.x * m.y.z * m.z.w
        && m.x.x * (m.w.z * m.y.w * m.z.y) == m.w.z * m.x.x * m.y.w * m.z.y
        && m.x.x * (m.w.z * m.y.y * m.z.w) == m.w.z * m.x.x * m.y.y * m.z.w
    ) by (nonlinear_arith);
    assert(((0 - m.w.y * m.z.z) + m.w.z * m.z.y) * (m.x.w) == (0 - m.w.y * m.z.z) * (m.x.w) + (m.w.z * m.z.y) * (m.x.w)
        && ((0 - m.w.y * m.z.z)) * (m.x.w) == (0 - m.w.y * m.x.w * m.z.z)
        && (m.w.z * m.z.y) * m.x.w == m.w.z * m.x.w * m.z.y
        && m.x.y * m.w.z == m.w.z * m.x.y
    ) by (nonlinear_arith);
    assert((m.w.y * m.x.z - m.w.z * m.x.y) * (m.z.w) == m.w.y * m.x.z * (m.z.w) - (m.w.z * m.x.y) * (m.z.w)
        && m.z.y * m.x.z == m.x.z * m.z.y
        && (m.x.y * m.z.z - m.x.z * m.z.y) * (m.w.w) == m.x.y * m.z.z * (m.w.w) - (m.x.z * m.z.y) * (m.w.w)
    ) by (nonlinear_arith);
    assert((m.x.y * m.z.z) * m.w.w == m.w.w * m.x.y * m.z.z
        && (m.x.z * m.z.y) * m.w.w == m.w.w * m.x.z * m.z.y
        && (m.y.x) * (g235 - m.w.z * m.x.y * m.z.w) == (m.y.x) * (g235) - (m.y.x) * (m.w.z * m.x.y * m.z.w)
    ) by (nonlinear_arith);
    assert((m.y.x) * (g234 + m.w.z * m.x.w * m.z.y) == (m.y.x) * (g234) + (m.y.x) * (m.w.z * m.x.w * m.z.y)
        && (m.y.x) * (g233 + m.w.y * m.x.z * m.z.w) == (m.y.x) * (g233) + (m.y.x) * (m.w.y * m.x.z * m.z.w)
    ) by (nonlinear_arith);
    assert((m.y.x) * (g232 - m.w.y * m.x.w * m.z.z) == (m.y.x) * (g232) - (m.y.x) * (m.w.y * m.x.w * m.z.z)
        && (m.y.x) * (m.w.w * m.x.y * m.z.z - m.w.w * m.x.z * m.z.y) == (m.y.x) * (m.w.w * m.x.y * m.z.z) - (m.y.x) * (m.w.w * m.x.z * m.z.y)
    ) by (nonlinear_arith);
    assert(m.y.x * (m.w.w * m.x.y * m.z.z) == m.w.w * m.x.y * m.y.x * m.z.z
        && m.y.x * (m.w.w * m.x.z * m.z.y) == m.w.w * m.x.z * m.y.x * m.z.y
        && m.y.x * (m.w.y * m.x.w * m.z.z) == m.w.y * m.x.w * m.y.x * m.z.z
    ) by (nonlinear_arith);
    assert(m.y.x * (m.w.y * m.x.z * m.z.w) == m.w.y * m.x.z * m.y.x * m.z.w
        && m.y.x * (m.w.z * m.x.w * m.z.y) == m.w.z * m.x.w * m.y.x * m.z.y
        && m.y.x * (m.w.z * m.x.y * m.z.w) == m.w.z * m.x.y * m.y.x * m.z.w
    ) by (nonlinear_arith);
    assert(((0 - m.w.y * m.y.z) + m.w.z * m.y.y) * (m.x.w) == (0 - m.w.y * m.y.z) * (m.x.w) + (m.w.z * m.y.y) * (m.x.w)
        && ((0 - m.w.y * m.y.z)) * (m.x.w) == (0 - m.w.y * m.x.w * m.y.z)
        && (m.w.z * m.y.y) * m.x.w == m.w.z * m.x.w * m.y.y
    ) by (nonlinear_arith);
    assert((m.w.y * m.x.z - m.w.z * m.x.y) * (m.y.w) == m.w.y * m.x.z * (m.y.w) - (m.w.z * m.x.y) * (m.y.w)
        && m.y.y * m.x.z == m.x.z * m.y.y
        && (m.x.y * m.y.z - m.x.z * m.y.y) * (m.w.w) == m.x.y * m.y.z * (m.w.w) - (m.x.z * m.y.y) * (m.w.w)
    ) by (nonlinear_arith);
    assert((m.x.y * m.y.z) * m.w.w == m.w.w * m.x.y * m.y.z
        && (m.x.z * m.y.y) * m.w.w == m.w.w * m.x.z * m.y.y
        && (m.z.x) * (g261 - m.w.z * m.x.y * m.y.w) == (m.z.x) * (g261) - (m.z.x) * (m.w.z * m.x.y * m.y.w)
    ) by (nonlinear_arith);
    assert((m.z.x) * (g260 + m.w.z * m.x.w * m.y.y) == (m.z.x) * (g260) + (m.z.x) * (m.w.z * m.x.w * m.y.y)
        && (m.z.x) * (g259 + m.w.y * m.x.z * m.y.w) == (m.z.x) * (g259) + (m.z.x) * (m.w.y * m.x.z * m.y.w)
    ) by (nonlinear_arith);
    assert((m.z.x) * (g258 - m.w.y * m.x.w * m.y.z) == (m.z.x) * (g258) - (m.z.x) * (m.w.y * m.x.w * m.y.z)
        && (m.z.x) * (m.w.w * m.x.y * m.y.z - m.w.w * m.x.z * m.y.y) == (m.z.x) * (m.w.w * m.x.y * m.y.z) - (m.z.x) * (m.w.w * m.x.z * m.y.y)
    ) by (nonlinear_arith);
    assert(m.z.x * (m.w.w * m.x.y * m.y.z) == m.w.w * m.x.y * m.y.z * m.z.x
        && m.z.x * (m.w.w * m.x.z * m.y.y) == m.w.w * m.x.z * m.y.y * m.z.x
        && m.z.x * (m.w.y * m.x.w * m.y.z) == m.w.y * m.x.w * m.y.z * m.z.x
    ) by (nonlinear_arith);
    assert(m.z.x * (m.w.y * m.x.z * m.y.w) == m.w.y * m.x.z * m.y.w * m.z.x
        && m.z.x * (m.w.z * m.x.w * m.y.y) == m.w.z * m.x.w * m.y.y * m.z.x
        && m.z.x * (m.w.z * m.x.y * m.y.w) == m.w.z * m.x.y * m.y.w * m.z.x
    ) by (nonlinear_arith);
    assert((m.y.y * m.z.z - m.y.z * m.z.y) * (m.x.w) == m.y.y * m.z.z * (m.x.w) - (m.y.z * m.z.y) * (m.x.w)
        && (m.y.y * m.z.z) * m.x.w == m.x.w * m.y.y * m.z.z
        && (m.y.z * m.z.y) * m.x.w == m.x.w * m.y.z * m.z.y
    ) by (nonlinear_arith);
    assert(((0 - m.x.y * m.z.z) + m.x.z * m.z.y) * (m.y.w) == (0 - m.x.y * m.z.z) * (m.y.w) + (m.x.z * m.z.y) * (m.y.w)
        && ((0 - m.x.y * m.z.z)) * (m.y.w) == (0 - m.x.y * m.y.w * m.z.z)
        && (m.x.z * m.z.y) * m.y.w == m.x.z * m.y.w * m.z.y
    ) by (nonlinear_arith);
    assert((m.x.y * m.y.z - m.x.z * m.y.y) * (m.z.w) == m.x.y * m.y.z * (m.z.w) - (m.x.z * m.y.y) * (m.z.w)
        && (m.w.x) * (g287 - m.x.z * m.y.y * m.z.w) == (m.w.x) * (g287) - (m.w.x) * (m.x.z * m.y.y * m.z.w)
    ) by (nonlinear_arith);
    assert((m.w.x) * (g286 + m.x.z * m.y.w * m.z.y) == (m.w.x) * (g286) + (m.w.x) * (m.x.z * m.y.w * m.z.y)
        && (m.w.x) * (g283 + m.x.y * m.y.z * m.z.w) == (m.w.x) * (g283) + (m.w.x) * (m.x.y * m.y.z * m.z.w)
    ) by (nonlinear_arith);
    assert((m.w.x) * (g280 - m.x.y * m.y.w * m.z.z) == (m.w.x) * (g280) - (m.w.x) * (m.x.y * m.y.w * m.z.z)
        && (m.w.x) * (m.x.w * m.y.y * m.z.z - m.x.w * m.y.z * m.z.y) == (m.w.x) * (m.x.w * m.y.y * m.z.z) - (m.w.x) * (m.x.w * m.y.z * m.z.y)
    ) by (nonlinear_arith);
    assert(m.w.x * (m.x.w * m.y.y * m.z.z) == m.w.x * m.x.w * m.y.y * m.z.z
        && m.w.x * (m.x.w * m.y.z * m.z.y) == m.w.x * m.x.w * m.y.z * m.z.y
        && m.w.x * (m.x.y * m.y.w * m.z.z) == m.w.x * m.x.y * m.y.w * m.z.z
    ) by (nonlinear_arith);
    assert(m.w.x * (m.x.y * m.y.z * m.z.w) == m.w.x * m.x.y * m.y.z * m.z.w
        && m.w.x * (m.x.z * m.y.w * m.z.y) == m.w.x * m.x.z * m.y.w * m.z.y
        && m.w.x * (m.x.z * m.y.y * m.z.w) == m.w.x * m.x.z * m.y.y * m.z.w
    ) by (nonlinear_arith);
    assert((m.z.x) * (m.w.y) == m.w.y * m.z.x);
    assert((m.w.x) * (m.z.y) == m.w.x * m.z.y);
    assert((m.w.y * m.z.x) - (m.w.x * m.z.y) == g0);
    assert((g0) * (m.y.z) == g1);
    assert((g0) * (m.y.z) == g1);
    assert((m.w.x) * (m.y.y) == m.w.x * m.y.y);
    assert((m.y.x) * (m.w.y) == m.w.y * m.y.x);
    assert((m.w.x * m.y.y) - (m.w.y * m.y.x) == g2);
    assert((g2) * (m.z.z) == g3);
    assert((g2) * (m.z.z) == g3);
    assert((g1) + (g3) == g6);
    assert((m.y.x) * (m.z.y) == m.y.x * m.z.y);
    assert((m.z.x) * (m.y.y) == m.y.y * m.z.x);
    assert((m.y.x * m.z.y) - (m.y.y * m.z.x) == g7);
    assert((g7) * (m.w.z) == g8);
    assert((g7) * (m.w.z) == g8);
    assert((g6) + (g8) == g10);
    assert(-(g10) == g15);
    assert((m.x.x) * (g11) == g16);
    assert((m.x.x) * (g12) == g17);
    assert((m.x.x) * (g13) == g18);
    assert((m.x.x) * (g14) == g19);
    assert((m.x.x) * (g15) == g20);
    assert((m.x.x) * (g15) == g20);
    assert((m.z.x) * (m.w.y) == m.w.y * m.z.x);
    assert((m.w.x) * (m.z.y) == m.w.x * m.z.y);
    assert((m.w.y * m.z.x) - (m.w.x * m.z.y) == g0);
    assert((g0) * (m.x.z) == g21);
    assert((g0) * (m.x.z) == g21);
    assert((m.w.x) * (m.x.y) == m.w.x * m.x.y);
    assert((m.x.x) * (m.w.y) == m.w.y * m.x.x);
    assert((m.w.x * m.x.y) - (m.w.y * m.x.x) == g22);
    assert((g22) * (m.z.z) == g23);
    assert((g22) * (m.z.z) == g23);
    assert((g21) + (g23) == g26);
    assert((m.x.x) * (m.z.y) == m.x.x * m.z.y);
    assert((m.z.x) * (m.x.y) == m.x.y * m.z.x);
    assert((m.x.x * m.z.y) - (m.x.y * m.z.x) == g27);
    assert((g27) * (m.w.z) == g28);
    assert((g27) * (m.w.z) == g28);
    assert((g26) + (g28) == g30);
    assert((m.y.x) * (g24) == g31);
    assert((m.y.x) * (g25) == g32);
    assert((m.y.x) * (g26) == g33);
    assert((m.y.x) * (g29) == g34);
    assert((m.y.x) * (g30) == g35);
    assert((m.y.x) * (g30) == g35);
    assert((g20) + (g35) == g41);
    assert((m.y.x) * (m.w.y) == m.w.y * m.y.x);
    assert((m.w.x) * (m.y.y) == m.w.x * m.y.y);
    assert((m.w.y * m.y.x) - (m.w.x * m.y.y) == g42);
    assert((g42) * (m.x.z) == g43);
    assert((g42) * (m.x.z) == g43);
    assert((m.w.x) * (m.x.y) == m.w.x * m.x.y);
    assert((m.x.x) * (m.w.y) == m.w.y * m.x.x);
    assert((m.w.x * m.x.y) - (m.w.y * m.x.x) == g22);
    assert((g22) * (m.y.z) == g44);
    assert((g22) * (m.y.z) == g44);
    assert((g43) + (g44) == g47);
    assert((m.x.x) * (m.y.y) == m.x.x * m.y.y);
    assert((m.y.x) * (m.x.y) == m.x.y * m.y.x);
    assert((m.x.x * m.y.y) - (m.x.y * m.y.x) == g48);
    assert((g48) * (m.w.z) == g49);
    assert((g48) * (m.w.z) == g49);
    assert((g47) + (g49) == g51);
    assert(-(g51) == g56);
    assert((m.z.x) * (g52) == g57);
    assert((m.z.x) * (g53) == g58);
    assert((m.z.x) * (g54) == g59);
    assert((m.z.x) * (g55) == g60);
    assert((m.z.x) * (g56) == g61);
    assert((m.z.x) * (g56) == g61);
    assert((g41) + (g61) == g64);
    assert((m.y.x) * (m.z.y) == m.y.x * m.z.y);
    assert((m.z.x) * (m.y.y) == m.y.y * m.z.x);
    assert((m.y.x * m.z.y) - (m.y.y * m.z.x) == g7);
    assert((g7) * (m.x.z) == g65);
    assert((g7) * (m.x.z) == g65);
    assert((m.z.x) * (m.x.y) == m.x.y * m.z.x);
    assert((m.x.x) * (m.z.y) == m.x.x * m.z.y);
    assert((m.x.y * m.z.x) - (m.x.x * m.z.y) == g66);
    assert((g66) * (m.y.z) == g67);
    assert((g66) * (m.y.z) == g67);
    assert((g65) + (g67) == g69);
    assert((m.x.x) * (m.y.y) == m.x.x * m.y.y);
    assert((m.y.x) * (m.x.y) == m.x.y * m.y.x);
    assert((m.x.x * m.y.y) - (m.x.y * m.y.x) == g48);
    assert((g48) * (m.z.z) == g70);
    assert((g48) * (m.z.z) == g70);
    assert((g69) + (g70) == g75);
    assert((m.w.x) * (g71) == g76);
    assert((m.w.x) * (g72) == g77);
    assert((m.w.x) * (g73) == g78);
    assert((m.w.x) * (g74) == g79);
    assert((m.w.x) * (g75) == g80);
    assert((m.w.x) * (g75) == g80);
    assert((g64) + (g80) == 0);
    assert((m.z.x) * (m.w.y) == m.w.y * m.z.x);
    assert((m.w.x) * (m.z.y) == m.w.x * m.z.y);
    assert((m.w.y * m.z.x) - (m.w.x * m.z.y) == g0);
    assert((g0) * (m.y.z) == g1);
    assert((m.w.x) * (m.y.y) == m.w.x * m.y.y);
    assert((m.y.x) * (m.w.y) == m.w.y * m.y.x);
    assert((m.w.x * m.y.y) - (m.w.y * m.y.x) == g2);
    assert((g2) * (m.z.z) == g3);
    assert((g1) + (g3) == g6);
    assert((m.y.x) * (m.z.y) == m.y.x * m.z.y);
    assert((m.z.x) * (m.y.y) == m.y.y * m.z.x);
    assert((m.y.x * m.z.y) - (m.y.y * m.z.x) == g7);
    assert((g7) * (m.w.z) == g8);
    assert((g6) + (g8) == g10);
    assert(-(g10) == g15);
    assert((m.x.y) * (g11) == g81);
    assert((m.x.y) * (g12) == g82);
    assert((m.x.y) * (g13) == g83);
    assert((m.x.y) * (g14) == g84);
    assert((m.x.y) * (g15) == g85);
    assert((m.x.y) * (g15) == g85);
    assert((m.z.x) * (m.w.y) == m.w.y * m.z.x);
    assert((m.w.x) * (m.z.y) == m.w.x * m.z.y);
    assert((m.w.y * m.z.x) - (m.w.x * m.z.y) == g0);
    assert((g0) * (m.x.z) == g21);
    assert((m.w.x) * (m.x.y) == m.w.x * m.x.y);
    assert((m.x.x) * (m.w.y) == m.w.y * m.x.x);
    assert((m.w.x * m.x.y) - (m.w.y * m.x.x) == g22);
    assert((g22) * (m.z.z) == g23);
    assert((g21) + (g23) == g26);
    assert((m.x.x) * (m.z.y) == m.x.x * m.z.y);
    assert((m.z.x) * (m.x.y) == m.x.y * m.z.x);
    assert((m.x.x * m.z.y) - (m.x.y * m.z.x) == g27);
    assert((g27) * (m.w.z) == g28);
    assert((g26) + (g28) == g30);
    assert((m.y.y) * (g24) == g86);
    assert((m.y.y) * (g25) == g87);
    assert((m.y.y) * (g26) == g88);
    assert((m.y.y) * (g29) == g89);
    assert((m.y.y) * (g30) == g90);
    assert((m.y.y) * (g30) == g90);
    assert((g85) + (g90) == g97);
    assert((m.y.x) * (m.w.y) == m.w.y * m.y.x);
    assert((m.w.x) * (m.y.y) == m.w.x * m.y.y);
    assert((m.w.y * m.y.x) - (m.w.x * m.y.y) == g42);
    assert((g42) * (m.x.z) == g43);
    assert((m.w.x) * (m.x.y) == m.w.x * m.x.y);
    assert((m.x.x) * (m.w.y) == m.w.y * m.x.x);
    assert((m.w.x * m.x.y) - (m.w.y * m.x.x) == g22);
    assert((g22) * (m.y.z) == g44);
    assert((g43) + (g44) == g47);
    assert((m.x.x) * (m.y.y) == m.x.x * m.y.y);
    assert((m.y.x) * (m.x.y) == m.x.y * m.y.x);
    assert((m.x.x * m.y.y) - (m.x.y * m.y.x) == g48);
    assert((g48) * (m.w.z) == g49);
    assert((g47) + (g49) == g51);
    assert(-(g51) == g56);
    assert((m.z.y) * (g52) == g98);
    assert((m.z.y) * (g53) == g99);
    assert((m.z.y) * (g54) == g100);
    assert((m.z.y) * (g55) == g101);
    assert((m.z.y) * (g56) == g102);
    assert((m.z.y) * (g56) == g102);
    assert((g97) + (g102) == g107);
    assert((m.y.x) * (m.z.y) == m.y.x * m.z.y);
    assert((m.z.x) * (m.y.y) == m.y.y * m.z.x);
    assert((m.y.x * m.z.y) - (m.y.y * m.z.x) == g7);
    assert((g7) * (m.x.z) == g65);
    assert((m.z.x) * (m.x.y) == m.x.y * m.z.x);
    assert((m.x.x) * (m.z.y) == m.x.x * m.z.y);
    assert((m.x.y * m.z.x) - (m.x.x * m.z.y) == g66);
    assert((g66) * (m.y.z) == g67);
    assert((g65) + (g67) == g69);
    assert((m.x.x) * (m.y.y) == m.x.x * m.y.y);
    assert((m.y.x) * (m.x.y) == m.x.y * m.y.x);
    assert((m.x.x * m.y.y) - (m.x.y * m.y.x) == g48);
    assert((g48) * (m.z.z) == g70);
    assert((g69) + (g70) == g75);
    assert((m.w.y) * (g71) == g108);
    assert((m.w.y) * (g72) == g109);
    assert((m.w.y) * (g73) == g110);
    assert((m.w.y) * (g74) == g111);
    assert((m.w.y) * (g75) == g112);
    assert((m.w.y) * (g75) == g112);
    assert((g107) + (g112) == 0);
    assert((m.z.x) * (m.w.y) == m.w.y * m.z.x);
    assert((m.w.x) * (m.z.y) == m.w.x * m.z.y);
    assert((m.w.y * m.z.x) - (m.w.x * m.z.y) == g0);
    assert((g0) * (m.y.z) == g1);
    assert((m.w.x) * (m.y.y) == m.w.x * m.y.y);
    assert((m.y.x) * (m.w.y) == m.w.y * m.y.x);
    assert((m.w.x * m.y.y) - (m.w.y * m.y.x) == g2);
    assert((g2) * (m.z.z) == g3);
    assert((g1) + (g3) == g6);
    assert((m.y.x) * (m.z.y) == m.y.x * m.z.y);
    assert((m.z.x) * (m.y.y) == m.y.y * m.z.x);
    assert((m.y.x * m.z.y) - (m.y.y * m.z.x) == g7);
    assert((g7) * (m.w.z) == g8);
    assert((g6) + (g8) == g10);
    assert(-(g10) == g15);
    assert((m.x.z) * (g11) == g113);
    assert((m.x.z) * (g12) == g114);
    assert((m.x.z) * (g13) == g115);
    assert((m.x.z) * (g14) == g116);
    assert((m.x.z) * (g15) == g117);
    assert((m.x.z) * (g15) == g117);
    assert((m.z.x) * (m.w.y) == m.w.y * m.z.x);
    assert((m.w.x) * (m.z.y) == m.w.x * m.z.y);
    assert((m.w.y * m.z.x) - (m.w.x * m.z.y) == g0);
    assert((g0) * (m.x.z) == g21);
    assert((m.w.x) * (m.x.y) == m.w.x * m.x.y);
    assert((m.x.x) * (m.w.y) == m.w.y * m.x.x);
    assert((m.w.x * m.x.y) - (m.w.y * m.x.x) == g22);
    assert((g22) * (m.z.z) == g23);
    assert((g21) + (g23) == g26);
    assert((m.x.x) * (m.z.y) == m.x.x * m.z.y);
    assert((m.z.x) * (m.x.y) == m.x.y * m.z.x);
    assert((m.x.x * m.z.y) - (m.x.y * m.z.x) == g27);
    assert((g27) * (m.w.z) == g28);
    assert((g26) + (g28) == g30);
    assert((m.y.z) * (g24) == g118);
    assert((m.y.z) * (g25) == g119);
    assert((m.y.z) * (g26) == g120);
    assert((m.y.z) * (g29) == g121);
    assert((m.y.z) * (g30) == g122);
    assert((m.y.z) * (g30) == g122);
    assert((g117) + (g122) == g129);
    assert((m.y.x) * (m.w.y) == m.w.y * m.y.x);
    assert((m.w.x) * (m.y.y) == m.w.x * m.y.y);
    assert((m.w.y * m.y.x) - (m.w.x * m.y.y) == g42);
    assert((g42) * (m.x.z) == g43);
    assert((m.w.x) * (m.x.y) == m.w.x * m.x.y);
    assert((m.x.x) * (m.w.y) == m.w.y * m.x.x);
    assert((m.w.x * m.x.y) - (m.w.y * m.x.x) == g22);
    assert((g22) * (m.y.z) == g44);
    assert((g43) + (g44) == g47);
    assert((m.x.x) * (m.y.y) == m.x.x * m.y.y);
    assert((m.y.x) * (m.x.y) == m.x.y * m.y.x);
    assert((m.x.x * m.y.y) - (m.x.y * m.y.x) == g48);
    assert((g48) * (m.w.z) == g49);
    assert((g47) + (g49) == g51);
    assert(-(g51) == g56);
    assert((m.z.z) * (g52) == g130);
    assert((m.z.z) * (g53) == g131);
    assert((m.z.z) * (g54) == g132);
    assert((m.z.z) * (g55) == g133);
    assert((m.z.z) * (g56) == g134);
    assert((m.z.z) * (g56) == g134);
    assert((g129) + (g134) == g139);
    assert((m.y.x) * (m.z.y) == m.y.x * m.z.y);
    assert((m.z.x) * (m.y.y) == m.y.y * m.z.x);
    assert((m.y.x * m.z.y) - (m.y.y * m.z.x) == g7);
    assert((g7) * (m.x.z) == g65);
    assert((m.z.x) * (m.x.y) == m.x.y * m.z.x);
    assert((m.x.x) * (m.z.y) == m.x.x * m.z.y);
    assert((m.x.y * m.z.x) - (m.x.x * m.z.y) == g66);
    assert((g66) * (m.y.z) == g67);
    assert((g65) + (g67) == g69);
    assert((m.x.x) * (m.y.y) == m.x.x * m.y.y);
    assert((m.y.x) * (m.x.y) == m.x.y * m.y.x);
    assert((m.x.x * m.y.y) - (m.x.y * m.y.x) == g48);
    assert((g48) * (m.z.z) == g70);
    assert((g69) + (g70) == g75);
    assert((m.w.z) * (g71) == g140);
    assert((m.w.z) * (g72) == g141);
    assert((m.w.z) * (g73) == g142);
    assert((m.w.z) * (g74) == g143);
    assert((m.w.z) * (g75) == g144);
    assert((m.w.z) * (g75) == g144);
    assert((g139) + (g144) == 0);
    assert((m.z.x) * (m.w.y) == m.w.y * m.z.x);
    assert((m.w.x) * (m.z.y) == m.w.x * m.z.y);
    assert((m.w.y * m.z.x) - (m.w.x * m.z.y) == g0);
    assert((g0) * (m.y.z) == g1);
    assert((m.w.x) * (m.y.y) == m.w.x * m.y.y);
    assert((m.y.x) * (m.w.y) == m.w.y * m.y.x);
    assert((m.w.x * m.y.y) - (m.w.y * m.y.x) == g2);
    assert((g2) * (m.z.z) == g3);
    assert((g1) + (g3) == g6);
    assert((m.y.x) * (m.z.y) == m.y.x * m.z.y);
    assert((m.z.x) * (m.y.y) == m.y.y * m.z.x);
    assert((m.y.x * m.z.y) - (m.y.y * m.z.x) == g7);
    assert((g7) * (m.w.z) == g8);
    assert((g6) + (g8) == g10);
    assert(-(g10) == g15);
    assert((m.x.w) * (g11) == g145);
    assert((m.x.w) * (g12) == g146);
    assert((m.x.w) * (g13) == g147);
    assert((m.x.w) * (g14) == g148);
    assert((m.x.w) * (g15) == g149);
    assert((m.x.w) * (g15) == g149);
    assert((m.z.x) * (m.w.y) == m.w.y * m.z.x);
    assert((m.w.x) * (m.z.y) == m.w.x * m.z.y);
    assert((m.w.y * m.z.x) - (m.w.x * m.z.y) == g0);
    assert((g0) * (m.x.z) == g21);
    assert((m.w.x) * (m.x.y) == m.w.x * m.x.y);
    assert((m.x.x) * (m.w.y) == m.w.y * m.x.x);
    assert((m.w.x * m.x.y) - (m.w.y * m.x.x) == g22);
    assert((g22) * (m.z.z) == g23);
    assert((g21) + (g23) == g26);
    assert((m.x.x) * (m.z.y) == m.x.x * m.z.y);
    assert((m.z.x) * (m.x.y) == m.x.y * m.z.x);
    assert((m.x.x * m.z.y) - (m.x.y * m.z.x) == g27);
    assert((g27) * (m.w.z) == g28);
    assert((g26) + (g28) == g30);
    assert((m.y.w) * (g24) == g150);
    assert((m.y.w) * (g25) == g151);
    assert((m.y.w) * (g26) == g152);
    assert((m.y.w) * (g29) == g153);
    assert((m.y.w) * (g30) == g154);
    assert((m.y.w) * (g30) == g154);
    assert((g149) + (g154) == g164);
    assert((m.y.x) * (m.w.y) == m.w.y * m.y.x);
    assert((m.w.x) * (m.y.y) == m.w.x * m.y.y);
    assert((m.w.y * m.y.x) - (m.w.x * m.y.y) == g42);
    assert((g42) * (m.x.z) == g43);
    assert((m.w.x) * (m.x.y) == m.w.x * m.x.y);
    assert((m.x.x) * (m.w.y) == m.w.y * m.x.x);
    assert((m.w.x * m.x.y) - (m.w.y * m.x.x) == g22);
    assert((g22) * (m.y.z) == g44);
    assert((g43) + (g44) == g47);
    assert((m.x.x) * (m.y.y) == m.x.x * m.y.y);
    assert((m.y.x) * (m.x.y) == m.x.y * m.y.x);
    assert((m.x.x * m.y.y) - (m.x.y * m.y.x) == g48);
    assert((g48) * (m.w.z) == g49);
    assert((g47) + (g49) == g51);
    assert(-(g51) == g56);
    assert((m.z.w) * (g52) == g165);
    assert((m.z.w) * (g53) == g166);
    assert((m.z.w) * (g54) == g167);
    assert((m.z.w) * (g55) == g168);
    assert((m.z.w) * (g56) == g169);
    assert((m.z.w) * (g56) == g169);
    assert((g164) + (g169) == g184);
    assert((m.y.x) * (m.z.y) == m.y.x * m.z.y);
    assert((m.z.x) * (m.y.y) == m.y.y * m.z.x);
    assert((m.y.x * m.z.y) - (m.y.y * m.z.x) == g7);
    assert((g7) * (m.x.z) == g65);
    assert((m.z.x) * (m.x.y) == m.x.y * m.z.x);
    assert((m.x.x) * (m.z.y) == m.x.x * m.z.y);
    assert((m.x.y * m.z.x) - (m.x.x * m.z.y) == g66);
    assert((g66) * (m.y.z) == g67);
    assert((g65) + (g67) == g69);
    assert((m.x.x) * (m.y.y) == m.x.x * m.y.y);
    assert((m.y.x) * (m.x.y) == m.x.y * m.y.x);
    assert((m.x.x * m.y.y) - (m.x.y * m.y.x) == g48);
    assert((g48) * (m.z.z) == g70);
    assert((g69) + (g70) == g75);
    assert((m.w.w) * (g71) == g185);
    assert((m.w.w) * (g72) == g186);
    assert((m.w.w) * (g73) == g187);
    assert((m.w.w) * (g74) == g188);
    assert((m.w.w) * (g75) == g189);
    assert((m.w.w) * (g75) == g189);
    assert((g184) + (g189) == g207);
    assert((m.z.y) * (m.w.z) == m.w.z * m.z.y);
    assert((m.w.y) * (m.z.z) == m.w.y * m.z.z);
    assert((m.w.z * m.z.y) - (m.w.y * m.z.z) == g208);
    assert((g208) * (m.y.w) == g209);
    assert((g208) * (m.y.w) == g209);
    assert((m.w.y) * (m.y.z) == m.w.y * m.y.z);
    assert((m.y.y) * (m.w.z) == m.w.z * m.y.y);
    assert((m.w.y * m.y.z) - (m.w.z * m.y.y) == g210);
    assert((g210) * (m.z.w) == g211);
    assert((g210) * (m.z.w) == g211);
    assert((g209) + (g211) == g214);
    assert((m.y.y) * (m.z.z) == m.y.y * m.z.z);
    assert((m.z.y) * (m.y.z) == m.y.z * m.z.y);
    assert((m.y.y * m.z.z) - (m.y.z * m.z.y) == g215);
    assert((g215) * (m.w.w) == g216);
    assert((g215) * (m.w.w) == g216);
    assert((g214) + (g216) == g220);
    assert((m.x.x) * (g216) == g185);
    assert((m.x.x) * (g217) == g221);
    assert((m.x.x) * (g218) == g222);
    assert((m.x.x) * (g219) == g223);
    assert((m.x.x) * (g220) == g224);
    assert((m.x.x) * (g220) == g224);
    assert((m.z.y) * (m.w.z) == m.w.z * m.z.y);
    assert((m.w.y) * (m.z.z) == m.w.y * m.z.z);
    assert((m.w.z * m.z.y) - (m.w.y * m.z.z) == g208);
    assert((g208) * (m.x.w) == g225);
    assert((g208) * (m.x.w) == g225);
    assert((m.w.y) * (m.x.z) == m.w.y * m.x.z);
    assert((m.x.y) * (m.w.z) == m.w.z * m.x.y);
    assert((m.w.y * m.x.z) - (m.w.z * m.x.y) == g226);
    assert((g226) * (m.z.w) == g227);
    assert((g226) * (m.z.w) == g227);
    assert((g225) + (g227) == g230);
    assert((m.x.y) * (m.z.z) == m.x.y * m.z.z);
    assert((m.z.y) * (m.x.z) == m.x.z * m.z.y);
    assert((m.x.y * m.z.z) - (m.x.z * m.z.y) == g231);
    assert((g231) * (m.w.w) == g232);
    assert((g231) * (m.w.w) == g232);
    assert((g230) + (g232) == g236);
    assert((m.y.x) * (g232) == g237);
    assert((m.y.x) * (g233) == g238);
    assert((m.y.x) * (g234) == g239);
    assert((m.y.x) * (g235) == g240);
    assert((m.y.x) * (g236) == g241);
    assert((m.y.x) * (g236) == g241);
    assert((g224) - (g241) == g250);
    assert((m.y.y) * (m.w.z) == m.w.z * m.y.y);
    assert((m.w.y) * (m.y.z) == m.w.y * m.y.z);
    assert((m.w.z * m.y.y) - (m.w.y * m.y.z) == g251);
    assert((g251) * (m.x.w) == g252);
    assert((g251) * (m.x.w) == g252);
    assert((m.w.y) * (m.x.z) == m.w.y * m.x.z);
    assert((m.x.y) * (m.w.z) == m.w.z * m.x.y);
    assert((m.w.y * m.x.z) - (m.w.z * m.x.y) == g226);
    assert((g226) * (m.y.w) == g253);
    assert((g226) * (m.y.w) == g253);
    assert((g252) + (g253) == g256);
    assert((m.x.y) * (m.y.z) == m.x.y * m.y.z);
    assert((m.y.y) * (m.x.z) == m.x.z * m.y.y);
    assert((m.x.y * m.y.z) - (m.x.z * m.y.y) == g257);
    assert((g257) * (m.w.w) == g258);
    assert((g257) * (m.w.w) == g258);
    assert((g256) + (g258) == g262);
    assert((m.z.x) * (g258) == g263);
    assert((m.z.x) * (g259) == g264);
    assert((m.z.x) * (g260) == g265);
    assert((m.z.x) * (g261) == g266);
    assert((m.z.x) * (g262) == g267);
    assert((m.z.x) * (g262) == g267);
    assert((g250) + (g267) == g279);
    assert((m.y.y) * (m.z.z) == m.y.y * m.z.z);
    assert((m.z.y) * (m.y.z) == m.y.z * m.z.y);
    assert((m.y.y * m.z.z) - (m.y.z * m.z.y) == g215);
    assert((g215) * (m.x.w) == g280);
    assert((g215) * (m.x.w) == g280);
    assert((m.z.y) * (m.x.z) == m.x.z * m.z.y);
    assert((m.x.y) * (m.z.z) == m.x.y * m.z.z);
    assert((m.x.z * m.z.y) - (m.x.y * m.z.z) == g281);
    assert((g281) * (m.y.w) == g282);
    assert((g281) * (m.y.w) == g282);
    assert((g280) + (g282) == g284);
    assert((m.x.y) * (m.y.z) == m.x.y * m.y.z);
    assert((m.y.y) * (m.x.z) == m.x.z * m.y.y);
    assert((m.x.y * m.y.z) - (m.x.z * m.y.y) == g257);
    assert((g257) * (m.z.w) == g285);
    assert((g257) * (m.z.w) == g285);
    assert((g284) + (g285) == g288);
    assert((m.w.x) * (g280) == g289);
    assert((m.w.x) * (g283) == g290);
    assert((m.w.x) * (g286) == g291);
    assert((m.w.x) * (g287) == g292);
    assert((m.w.x) * (g288) == g293);
    assert((m.w.x) * (g288) == g293);
    assert((g279) - (g293) == g207);
}

/// The adjugate identity: `m * adjugate(m)` denotes the same matrix as
/// `determinant(m) * identity`.
pub proof fn lemma_mul_adjugate_4(m: M4)
    requires
        m4_wf(m),
    ensures
        m4_sim(m4_mul(m, m4_adjugate(m)), m4_scalar_mul(m4_identity(), m4_det(m))),
{
    adj4_col_x(m);
    adj4_col_y(m);
    adj4_col_z(m);
    adj4_col_w(m);
    assert((m.x.d * (m.y.d * m.z.d * m.w.d)) * 1 == 1 * (m.x.d * (m.y.d * m.z.d * m.w.d))) by (nonlinear_arith)
        requires
            m.x.d == m.y.d,
            m.x.d == m.z.d,
            m.x.d == m.w.d,

    ;
    assert((m.x.d * (m.y.d * m.z.d * m.w.d)) * 1 == 1 * (m.x.d * (m.x.d * m.z.d * m.w.d))) by (nonlinear_arith)
        requires
            m.x.d == m.y.d,
            m.x.d == m.z.d,
            m.x.d == m.w.d,

    ;
    assert((m.x.d * (m.y.d * m.z.d * m.w.d)) * 1 == 1 * (m.x.d * (m.x.d * m.y.d * m.w.d))) by (nonlinear_arith)
        requires
            m.x.d == m.y.d,
            m.x.d == m.z.d,
            m.x.d == m.w.d,

    ;
    assert((m.x.d * (m.y.d * m.z.d * m.w.d)) * 1 == 1 * (m.x.d * (m.x.d * m.y.d * m.z.d))) by (nonlinear_arith)
        requires
            m.x.d == m.y.d,
            m.x.d == m.z.d,
            m.x.d == m.w.d,

    ;
}

proof fn inv4_factor_x_x(m: M4, rn: int)
    ensures
        m.x.x * (((m.z.y * m.w.z - m.w.y * m.z.z) * m.y.w + (m.w.y * m.y.z - m.y.y * m.w.z) * m.z.w + (m.y.y * m.z.z - m.z.y * m.y.z) * m.w.w) * rn) + m.y.x * ((-((m.z.y * m.w.z - m.w.y * m.z.z) * m.x.w + (m.w.y * m.x.z - m.x.y * m.w.z) * m.z.w + (m.x.y * m.z.z - m.z.y * m.x.z) * m.w.w)) * rn) + m.z.x * (((m.y.y * m.w.z - m.w.y * m.y.z) * m.x.w + (m.w.y * m.x.z - m.x.y * m.w.z) * m.y.w + (m.x.y * m.y.z - m.y.y * m.x.z) * m.w.w) * rn) + m.w.x * ((-((m.y.y * m.z.z - m.z.y * m.y.z) * m.x.w + (m.z.y * m.x.z - m.x.y * m.z.z) * m.y.w + (m.x.y * m.y.z - m.y.y * m.x.z) * m.z.w)) * rn) == (m.x.x * ((m.z.y * m.w.z - m.w.y * m.z.z) * m.y.w + (m.w.y * m.y.z - m.y.y * m.w.z) * m.z.w + (m.y.y * m.z.z - m.z.y * m.y.z) * m.w.w) + m.y.x * (-((m.z.y * m.w.z - m.w.y * m.z.z) * m.x.w + (m.w.y * m.x.z - m.x.y * m.w.z) * m.z.w + (m.x.y * m.z.z - m.z.y * m.x.z) * m.w.w)) + m.z.x * ((m.y.y * m.w.z - m.w.y * m.y.z) * m.x.w + (m.w.y * m.x.z - m.x.y * m.w.z) * m.y.w + (m.x.y * m.y.z - m.y.y * m.x.z) * m.w.w) + m.w.x * (-((m.y.y * m.z.z - m.z.y * m.y.z) * m.x.w + (m.z.y * m.x.z - m.x.y * m.z.z) * m.y.w + (m.x.y * m.y.z - m.y.y * m.x.z) * m.z.w))) * rn,
{
    let e0: int = (m.z.y * m.w.z - m.w.y * m.z.z) * m.y.w + (m.w.y * m.y.z - m.y.y * m.w.z) * m.z.w + (m.y.y * m.z.z - m.z.y * m.y.z) * m.w.w;
    let e1: int = -((m.z.y * m.w.z - m.w.y * m.z.z) * m.x.w + (m.w.y * m.x.z - m.x.y * m.w.z) * m.z.w + (m.x.y * m.z.z - m.z.y * m.x.z) * m.w.w);
    let e2: int = (m.y.y * m.w.z - m.w.y * m.y.z) * m.x.w + (m.w.y * m.x.z - m.x.y * m.w.z) * m.y.w + (m.x.y * m.y.z - m.y.y * m.x.z) * m.w.w;
    let e3: int = -((m.y.y * m.z.z - m.z.y * m.y.z) * m.x.w + (m.z.y * m.x.z - m.x.y * m.z.z) * m.y.w + (m.x.y * m.y.z - m.y.y * m.x.z) * m.z.w);
    assert(m.x.x * (e0 * rn) == m.x.x * e0 * rn
        && m.y.x * (e1 * rn) == m.y.x * e1 * rn
        && m.z.x * (e2 * rn) == m.z.x * e2 * rn
        && m.w.x * (e3 * rn) == m.w.x * e3 * rn
        && (m.x.x * e0 + m.y.x * e1) * rn == (m.x.x * e0) * rn + (m.y.x * e1) * rn
        && (m.x.x * e0 + m.y.x * e1 + m.z.x * e2) * rn == (m.x.x * e0 + m.y.x * e1) * rn + (m.z.x * e2) * rn
        && (m.x.x * e0 + m.y.x * e1 + m.z.x * e2 + m.w.x * e3) * rn == (m.x.x * e0 + m.y.x * e1 + m.z.x * e2) * rn + (m.w.x * e3) * rn
    ) by (nonlinear_arith);
}

proof fn inv4_factor_x_y(m: M4, rn: int)
    ensures
        m.x.y * (((m.z.y * m.w.z - m.w.y * m.z.z) * m.y.w + (m.w.y * m.y.z - m.y.y * m.w.z) * m.z.w + (m.y.y * m.z.z - m.z.y * m.y.z) * m.w.w) * rn) + m.y.y * ((-((m.z.y * m.w.z - m.w.y * m.z.z) * m.x.w + (m.w.y * m.x.z - m.x.y * m.w.z) * m.z.w + (m.x.y * m.z.z - m.z.y * m.x.z) * m.w.w)) * rn) + m.z.y * (((m.y.y * m.w.z - m.w.y * m.y.z) * m.x.w + (m.w.y * m.x.z - m.x.y * m.w.z) * m.y.w + (m.x.y * m.y.z - m.y.y * m.x.z) * m.w.w) * rn) + m.w.y * ((-((m.y.y * m.z.z - m.z.y * m.y.z) * m.x.w + (m.z.y * m.x.z - m.x.y * m.z.z) * m.y.w + (m.x.y * m.y.z - m.y.y * m.x.z) * m.z.w)) * rn) == (m.x.y * ((m.z.y * m.w.z - m.w.y * m.z.z) * m.y.w + (m.w.y * m.y.z - m.y.y * m.w.z) * m.z.w + (m.y.y * m.z.z - m.z.y * m.y.z) * m.w.w) + m.y.y * (-((m.z.y * m.w.z - m.w.y * m.z.z) * m.x.w + (m.w.y * m.x.z - m.x.y * m.w.z) * m.z.w + (m.x.y * m.z.z - m.z.y * m.x.z) * m.w.w)) + m.z.y * ((m.y.y * m.w.z - m.w.y * m.y.z) * m.x.w + (m.w.y * m.x.z - m.x.y * m.w.z) * m.y.w + (m.x.y * m.y.z - m.y.y * m.x.z) * m.w.w) + m.w.y * (-((m.y.y * m.z.z - m.z.y * m.y.z) * m.x.w + (m.z.y * m.x.z - m.x.y * m.z.z) * m.y.w + (m.x.y * m.y.z - m.y.y * m.x.z) * m.z.w))) * rn,
{
    let e0: int = (m.z.y * m.w.z - m.w.y * m.z.z) * m.y.w + (m.w.y * m.y.z - m.y.y * m.w.z) * m.z.w + (m.y.y * m.z.z - m.z.y * m.y.z) * m.w.w;
    let e1: int = -((m.z.y * m.w.z - m.w.y * m.z.z) * m.x.w + (m.w.y * m.x.z - m.x.y * m.w.z) * m.z.w + (m.x.y * m.z.z - m.z.y * m.x.z) * m.w.w);
    let e2: int = (m.y.y * m.w.z - m.w.y * m.y.z) * m.x.w + (m.w.y * m.x.z - m.x.y * m.w.z) * m.y.w + (m.x.y * m.y.z - m.y.y * m.x.z) * m.w.w;
    let e3: int = -((m.y.y * m.z.z - m.z.y * m.y.z) * m.x.w + (m.z.y * m.x.z - m.x.y * m.z.z) * m.y.w + (m.x.y * m.y.z - m.y.y * m.x.z) * m.z.w);
    assert(m.x.y * (e0 * rn) == m.x.y * e0 * rn
        && m.y.y * (e1 * rn) == m.y.y * e1 * rn
        && m.z.y * (e2 * rn) == m.z.y * e2 * rn
        && m.w.y * (e3 * rn) == m.w.y * e3 * rn
        && (m.x.y * e0 + m.y.y * e1) * rn == (m.x.y * e0) * rn + (m.y.y * e1) * rn
        && (m.x.y * e0 + m.y.y * e1 + m.z.y * e2) * rn == (m.x.y * e0 + m.y.y * e1) * rn + (m.z.y * e2) * rn
        && (m.x.y * e0 + m.y.y * e1 + m.z.y * e2 + m.w.y * e3) * rn == (m.x.y * e0 + m.y.y * e1 + m.z.y * e2) * rn + (m.w.y * e3) * rn
    ) by (nonlinear_arith);
}

proof fn inv4_factor_x_z(m: M4, rn: int)
    ensures
        m.x.z * (((m.z.y * m.w.z - m.w.y * m.z.z) * m.y.w + (m.w.y * m.y.z - m.y.y * m.w.z) * m.z.w + (m.y.y * m.z.z - m.z.y * m.y.z) * m.w.w) * rn) + m.y.z * ((-((m.z.y * m.w.z - m.w.y * m.z.z) * m.x.w + (m.w.y * m.x.z - m.x.y * m.w.z) * m.z.w + (m.x.y * m.z.z - m.z.y * m.x.z) * m.w.w)) * rn) + m.z.z * (((m.y.y * m.w.z - m.w.y * m.y.z) * m.x.w + (m.w.y * m.x.z - m.x.y * m.w.z) * m.y.w + (m.x.y * m.y.z - m.y.y * m.x.z) * m.w.w) * rn) + m.w.z * ((-((m.y.y * m.z.z - m.z.y * m.y.z) * m.x.w + (m.z.y * m.x.z - m.x.y * m.z.z) * m.y.w + (m.x.y * m.y.z - m.y.y * m.x.z) * m.z.w)) * rn) == (m.x.z * ((m.z.y * m.w.z - m.w.y * m.z.z) * m.y.w + (m.w.y * m.y.z - m.y.y * m.w.z) * m.z.w + (m.y.y * m.z.z - m.z.y * m.y.z) * m.w.w) + m.y.z * (-((m.z.y * m.w.z - m.w.y * m.z.z) * m.x.w + (m.w.y * m.x.z - m.x.y * m.w.z) * m.z.w + (m.x.y * m.z.z - m.z.y * m.x.z) * m.w.w)) + m.z.z * ((m.y.y * m.w.z - m.w.y * m.y.z) * m.x.w + (m.w.y * m.x.z - m.x.y * m.w.z) * m.y.w + (m.x.y * m.y.z - m.y.y * m.x.z) * m.w.w) + m.w.z * (-((m.y.y * m.z.z - m.z.y * m.y.z) * m.x.w + (m.z.y * m.x.z - m.x.y * m.z.z) * m.y.w + (m.x.y * m.y.z - m.y.y * m.x.z) * m.z.w))) * rn,
{
    let e0: int = (m.z.y * m.w.z - m.w.y * m.z.z) * m.y.w + (m.w.y * m.y.z - m.y.y * m.w.z) * m.z.w + (m.y.y * m.z.z - m.z.y * m.y.z) * m.w.w;
    let e1: int = -((m.z.y * m.w.z - m.w.y * m.z.z) * m.x.w + (m.w.y * m.x.z - m.x.y * m.w.z) * m.z.w + (m.x.y * m.z.z - m.z.y * m.x.z) * m.w.w);
    let e2: int = (m.y.y * m.w.z - m.w.y * m.y.z) * m.x.w + (m.w.y * m.x.z - m.x.y * m.w.z) * m.y.w + (m.x.y * m.y.z - m.y.y * m.x.z) * m.w.w;
    let e3: int = -((m.y.y * m.z.z - m.z.y * m.y.z) * m.x.w + (m.z.y * m.x.z - m.x.y * m.z.z) * m.y.w + (m.x.y * m.y.z - m.y.y * m.x.z) * m.z.w);
    assert(m.x.z * (e0 * rn) == m.x.z * e0 * rn
        && m.y.z * (e1 * rn) == m.y.z * e1 * rn
        && m.z.z * (e2 * rn) == m.z.z * e2 * rn
        && m.w.z * (e3 * rn) == m.w.z * e3 * rn
        && (m.x.z * e0 + m.y.z * e1) * rn == (m.x.z * e0) * rn + (m.y.z * e1) * rn
        && (m.x.z * e0 + m.y.z * e1 + m.z.z * e2) * rn == (m.x.z * e0 + m.y.z * e1) * rn + (m.z.z * e2) * rn
        && (m.x.z * e0 + m.y.z * e1 + m.z.z * e2 + m.w.z * e3) * rn == (m.x.z * e0 + m.y.z * e1 + m.z.z * e2) * rn + (m.w.z * e3) * rn
    ) by (nonlinear_arith);
}

proof fn inv4_factor_x_w(m: M4, rn: int)
    ensures
        m.x.w * (((m.z.y * m.w.z - m.w.y * m.z.z) * m.y.w + (m.w.y * m.y.z - m.y.y * m.w.z) * m.z.w + (m.y.y * m.z.z - m.z.y * m.y.z) * m.w.w) * rn) + m.y.w * ((-((m.z.y * m.w.z - m.w.y * m.z.z) * m.x.w + (m.w.y * m.x.z - m.x.y * m.w.z) * m.z.w + (m.x.y * m.z.z - m.z.y * m.x.z) * m.w.w)) * rn) + m.z.w * (((m.y.y * m.w.z - m.w.y * m.y.z) * m.x.w + (m.w.y * m.x.z - m.x.y * m.w.z) * m.y.w + (m.x.y * m.y.z - m.y.y * m.x.z) * m.w.w) * rn) + m.w.w * ((-((m.y.y * m.z.z - m.z.y * m.y.z) * m.x.w + (m.z.y * m.x.z - m.x.y * m.z.z) * m.y.w + (m.x.y * m.y.z - m.y.y * m.x.z) * m.z.w)) * rn) == (m.x.w * ((m.z.y * m.w.z - m.w.y * m.z.z) * m.y.w + (m.w.y * m.y.z - m.y.y * m.w.z) * m.z.w + (m.y.y * m.z.z - m.z.y * m.y.z) * m.w.w) + m.y.w * (-((m.z.y * m.w.z - m.w.y * m.z.z) * m.x.w + (m.w.y * m.x.z - m.x.y * m.w.z) * m.z.w + (m.x.y * m.z.z - m.z.y * m.x.z) * m.w.w)) + m.z.w * ((m.y.y * m.w.z - m.w.y * m.y.z) * m.x.w + (m.w.y * m.x.z - m.x.y * m.w.z) * m.y.w + (m.x.y * m.y.z - m.y.y * m.x.z) * m.w.w) + m.w.w * (-((m.y.y * m.z.z - m.z.y * m.y.z) * m.x.w + (m.z.y * m.x.z - m.x.y * m.z.z) * m.y.w + (m.x.y * m.y.z - m.y.y * m.x.z) * m.z.w))) * rn,
{
    let e0: int = (m.z.y * m.w.z - m.w.y * m.z.z) * m.y.w + (m.w.y * m.y.z - m.y.y * m.w.z) * m.z.w + (m.y.y * m.z.z - m.z.y * m.y.z) * m.w.w;
    let e1: int = -((m.z.y * m.w.z - m.w.y * m.z.z) * m.x.w + (m.w.y * m.x.z - m.x.y * m.w.z) * m.z.w + (m.x.y * m.z.z - m.z.y * m.x.z) * m.w.w);
    let e2: int = (m.y.y * m.w.z - m.w.y * m.y.z) * m.x.w + (m.w.y * m.x.z - m.x.y * m.w.z) * m.y.w + (m.x.y * m.y.z - m.y.y * m.x.z) * m.w.w;
    let e3: int = -((m.y.y * m.z.z - m.z.y * m.y.z) * m.x.w + (m.z.y * m.x.z - m.x.y * m.z.z) * m.y.w + (m.x.y * m.y.z - m.y.y * m.x.z) * m.z.w);
    assert(m.x.w * (e0 * rn) == m.x.w * e0 * rn
        && m.y.w * (e1 * rn) == m.y.w * e1 * rn
        && m.z.w * (e2 * rn) == m.z.w * e2 * rn
        && m.w.w * (e3 * rn) == m.w.w * e3 * rn
        && (m.x.w * e0 + m.y.w * e1) * rn == (m.x.w * e0) * rn + (m.y.w * e1) * rn
        && (m.x.w * e0 + m.y.w * e1 + m.z.w * e2) * rn == (m.x.w * e0 + m.y.w * e1) * rn + (m.z.w * e2) * rn
        && (m.x.w * e0 + m.y.w * e1 + m.z.w * e2 + m.w.w * e3) * rn == (m.x.w * e0 + m.y.w * e1 + m.z.w * e2) * rn + (m.w.w * e3) * rn
    ) by (nonlinear_arith);
}

proof fn inv4_factor_y_x(m: M4, rn: int)
    ensures
        m.x.x * ((-((m.z.x * m.w.z - m.w.x * m.z.z) * m.y.w + (m.w.x * m.y.z - m.y.x * m.w.z) * m.z.w + (m.y.x * m.z.z - m.z.x * m.y.z) * m.w.w)) * rn) + m.y.x * (((m.z.x * m.w.z - m.w.x * m.z.z) * m.x.w + (m.w.x * m.x.z - m.x.x * m.w.z) * m.z.w + (m.x.x * m.z.z - m.z.x * m.x.z) * m.w.w) * rn) + m.z.x * ((-((m.y.x * m.w.z - m.w.x * m.y.z) * m.x.w + (m.w.x * m.x.z - m.x.x * m.w.z) * m.y.w + (m.x.x * m.y.z - m.y.x * m.x.z) * m.w.w)) * rn) + m.w.x * (((m.y.x * m.z.z - m.z.x * m.y.z) * m.x.w + (m.z.x * m.x.z - m.x.x * m.z.z) * m.y.w + (m.x.x * m.y.z - m.y.x * m.x.z) * m.z.w) * rn) == (m.x.x * (-((m.z.x * m.w.z - m.w.x * m.z.z) * m.y.w + (m.w.x * m.y.z - m.y.x * m.w.z) * m.z.w + (m.y.x * m.z.z - m.z.x * m.y.z) * m.w.w)) + m.y.x * ((m.z.x * m.w.z - m.w.x * m.z.z) * m.x.w + (m.w.x * m.x.z - m.x.x * m.w.z) * m.z.w + (m.x.x * m.z.z - m.z.x * m.x.z) * m.w.w) + m.z.x * (-((m.y.x * m.w.z - m.w.x * m.y.z) * m.x.w + (m.w.x * m.x.z - m.x.x * m.w.z) * m.y.w + (m.x.x * m.y.z - m.y.x * m.x.z) * m.w.w)) + m.w.x * ((m.y.x * m.z.z - m.z.x * m.y.z) * m.x.w + (m.z.x * m.x.z - m.x.x * m.z.z) * m.y.w + (m.x.x * m.y.z - m.y.x * m.x.z) * m.z.w)) * rn,
{
    let e0: int = -((m.z.x * m.w.z - m.w.x * m.z.z) * m.y.w + (m.w.x * m.y.z - m.y.x * m.w.z) * m.z.w + (m.y.x * m.z.z - m.z.x * m.y.z) * m.w.w);
    let e1: int = (m.z.x * m.w.z - m.w.x * m.z.z) * m.x.w + (m.w.x * m.x.z - m.x.x * m.w.z) * m.z.w + (m.x.x * m.z.z - m.z.x * m.x.z) * m.w.w;
    let e2: int = -((m.y.x * m.w.z - m.w.x * m.y.z) * m.x.w + (m.w.x * m.x.z - m.x.x * m.w.z) * m.y.w + (m.x.x * m.y.z - m.y.x * m.x.z) * m.w.w);
    let e3: int = (m.y.x * m.z.z - m.z.x * m.y.z) * m.x.w + (m.z.x * m.x.z - m.x.x * m.z.z) * m.y.w + (m.x.x * m.y.z - m.y.x * m.x.z) * m.z.w;
    assert(m.x.x * (e0 * rn) == m.x.x * e0 * rn
        && m.y.x * (e1 * rn) == m.y.x * e1 * rn
        && m.z.x * (e2 * rn) == m.z.x * e2 * rn
        && m.w.x * (e3 * rn) == m.w.x * e3 * rn
        && (m.x.x * e0 + m.y.x * e1) * rn == (m.x.x * e0) * rn + (m.y.x * e1) * rn
        && (m.x.x * e0 + m.y.x * e1 + m.z.x * e2) * rn == (m.x.x * e0 + m.y.x * e1) * rn + (m.z.x * e2) * rn
        && (m.x.x * e0 + m.y.x * e1 + m.z.x * e2 + m.w.x * e3) * rn == (m.x.x * e0 + m.y.x * e1 + m.z.x * e2) * rn + (m.w.x * e3) * rn
    ) by (nonlinear_arith);
}

proof fn inv4_factor_y_y(m: M4, rn: int)
    ensures
        m.x.y * ((-((m.z.x * m.w.z - m.w.x * m.z.z) * m.y.w + (m.w.x * m.y.z - m.y.x * m.w.z) * m.z.w + (m.y.x * m.z.z - m.z.x * m.y.z) * m.w.w)) * rn) + m.y.y * (((m.z.x * m.w.z - m.w.x * m.z.z) * m.x.w + (m.w.x * m.x.z - m.x.x * m.w.z) * m.z.w + (m.x.x * m.z.z - m.z.x * m.x.z) * m.w.w) * rn) + m.z.y * ((-((m.y.x * m.w.z - m.w.x * m.y.z) * m.x.w + (m.w.x * m.x.z - m.x.x * m.w.z) * m.y.w + (m.x.x * m.y.z - m.y.x * m.x.z) * m.w.w)) * rn) + m.w.y * (((m.y.x * m.z.z - m.z.x * m.y.z) * m.x.w + (m.z.x * m.x.z - m.x.x * m.z.z) * m.y.w + (m.x.x * m.y.z - m.y.x * m.x.z) * m.z.w) * rn) == (m.x.y * (-((m.z.x * m.w.z - m.w.x * m.z.z) * m.y.w + (m.w.x * m.y.z - m.y.x * m.w.z) * m.z.w + (m.y.x * m.z.z - m.z.x * m.y.z) * m.w.w)) + m.y.y * ((m.z.x * m.w.z - m.w.x * m.z.z) * m.x.w + (m.w.x * m.x.z - m.x.x * m.w.z) * m.z.w + (m.x.x * m.z.z - m.z.x * m.x.z) * m.w.w) + m.z.y * (-((m.y.x * m.w.z - m.w.x * m.y.z) * m.x.w + (m.w.x * m.x.z - m.x.x * m.w.z) * m.y.w + (m.x.x * m.y.z - m.y.x * m.x.z) * m.w.w)) + m.w.y * ((m.y.x * m.z.z - m.z.x * m.y.z) * m.x.w + (m.z.x * m.x.z - m.x.x * m.z.z) * m.y.w + (m.x.x * m.y.z - m.y.x * m.x.z) * m.z.w)) * rn,
{
    let e0: int = -((m.z.x * m.w.z - m.w.x * m.z.z) * m.y.w + (m.w.x * m.y.z - m.y.x * m.w.z) * m.z.w + (m.y.x * m.z.z - m.z.x * m.y.z) * m.w.w);
    let e1: int = (m.z.x * m.w.z - m.w.x * m.z.z) * m.x.w + (m.w.x * m.x.z - m.x.x * m.w.z) * m.z.w + (m.x.x * m.z.z - m.z.x * m.x.z) * m.w.w;
    let e2: int = -((m.y.x * m.w.z - m.w.x * m.y.z) * m.x.w + (m.w.x * m.x.z - m.x.x * m.w.z) * m.y.w + (m.x.x * m.y.z - m.y.x * m.x.z) * m.w.w);
    let e3: int = (m.y.x * m.z.z - m.z.x * m.y.z) * m.x.w + (m.z.x * m.x.z - m.x.x * m.z.z) * m.y.w + (m.x.x * m.y.z - m.y.x * m.x.z) * m.z.w;
    assert(m.x.y * (e0 * rn) == m.x.y * e0 * rn
        && m.y.y * (e1 * rn) == m.y.y * e1 * rn
        && m.z.y * (e2 * rn) == m.z.y * e2 * rn
        && m.w.y * (e3 * rn) == m.w.y * e3 * rn
        && (m.x.y * e0 + m.y.y * e1) * rn == (m.x.y * e0) * rn + (m.y.y * e1) * rn
        && (m.x.y * e0 + m.y.y * e1 + m.z.y * e2) * rn == (m.x.y * e0 + m.y.y * e1) * rn + (m.z.y * e2) * rn
        && (m.x.y * e0 + m.y.y * e1 + m.z.y * e2 + m.w.y * e3) * rn == (m.x.y * e0 + m.y.y * e1 + m.z.y * e2) * rn + (m.w.y * e3) * rn
    ) by (nonlinear_arith);
}

proof fn inv4_factor_y_z(m: M4, rn: int)
    ensures
        m.x.z * ((-((m.z.x * m.w.z - m.w.x * m.z.z) * m.y.w + (m.w.x * m.y.z - m.y.x * m.w.z) * m.z.w + (m.y.x * m.z.z - m.z.x * m.y.z) * m.w.w)) * rn) + m.y.z * (((m.z.x * m.w.z - m.w.x * m.z.z) * m.x.w + (m.w.x * m.x.z - m.x.x * m.w.z) * m.z.w + (m.x.x * m.z.z - m.z.x * m.x.z) * m.w.w) * rn) + m.z.z * ((-((m.y.x * m.w.z - m.w.x * m.y.z) * m.x.w + (m.w.x * m.x.z - m.x.x * m.w.z) * m.y.w + (m.x.x * m.y.z - m.y.x * m.x.z) * m.w.w)) * rn) + m.w.z * (((m.y.x * m.z.z - m.z.x * m.y.z) * m.x.w + (m.z.x * m.x.z - m.x.x * m.z.z) * m.y.w + (m.x.x * m.y.z - m.y.x * m.x.z) * m.z.w) * rn) == (m.x.z * (-((m.z.x * m.w.z - m.w.x * m.z.z) * m.y.w + (m.w.x * m.y.z - m.y.x * m.w.z) * m.z.w + (m.y.x * m.z.z - m.z.x * m.y.z) * m.w.w)) + m.y.z * ((m.z.x * m.w.z - m.w.x * m.z.z) * m.x.w + (m.w.x * m.x.z - m.x.x * m.w.z) * m.z.w + (m.x.x * m.z.z - m.z.x * m.x.z) * m.w.w) + m.z.z * (-((m.y.x * m.w.z - m.w.x * m.y.z) * m.x.w + (m.w.x * m.x.z - m.x.x * m.w.z) * m.y.w + (m.x.x * m.y.z - m.y.x * m.x.z) * m.w.w)) + m.w.z * ((m.y.x * m.z.z - m.z.x * m.y.z) * m.x.w + (m.z.x * m.x.z - m.x.x * m.z.z) * m.y.w + (m.x.x * m.y.z - m.y.x * m.x.z) * m.z.w)) * rn,
{
    let e0: int = -((m.z.x * m.w.z - m.w.x * m.z.z) * m.y.w + (m.w.x * m.y.z - m.y.x * m.w.z) * m.z.w + (m.y.x * m.z.z - m.z.x * m.y.z) * m.w.w);
    let e1: int = (m.z.x * m.w.z - m.w.x * m.z.z) * m.x.w + (m.w.x * m.x.z - m.x.x * m.w.z) * m.z.w + (m.x.x * m.z.z - m.z.x * m.x.z) * m.w.w;
    let e2: int = -((m.y.x * m.w.z - m.w.x * m.y.z) * m.x.w + (m.w.x * m.x.z - m.x.x * m.w.z) * m.y.w + (m.x.x * m.y.z - m.y.x * m.x.z) * m.w.w);
    let e3: int = (m.y.x * m.z.z - m.z.x * m.y.z) * m.x.w + (m.z.x * m.x.z - m.x.x * m.z.z) * m.y.w + (m.x.x * m.y.z - m.y.x * m.x.z) * m.z.w;
    assert(m.x.z * (e0 * rn) == m.x.z * e0 * rn
        && m.y.z * (e1 * rn) == m.y.z * e1 * rn
        && m.z.z * (e2 * rn) == m.z.z * e2 * rn
        && m.w.z * (e3 * rn) == m.w.z * e3 * rn
        && (m.x.z * e0 + m.y.z * e1) * rn == (m.x.z * e0) * rn + (m.y.z * e1) * rn
        && (m.x.z * e0 + m.y.z * e1 + m.z.z * e2) * rn == (m.x.z * e0 + m.y.z * e1) * rn + (m.z.z * e2) * rn
        && (m.x.z * e0 + m.y.z * e1 + m.z.z * e2 + m.w.z * e3) * rn == (m.x.z * e0 + m.y.z * e1 + m.z.z * e2) * rn + (m.w.z * e3) * rn
    ) by (nonlinear_arith);
}

proof fn inv4_factor_y_w(m: M4, rn: int)
    ensures
        m.x.w * ((-((m.z.x * m.w.z - m.w.x * m.z.z) * m.y.w + (m.w.x * m.y.z - m.y.x * m.w.z) * m.z.w + (m.y.x * m.z.z - m.z.x * m.y.z) * m.w.w)) * rn) + m.y.w * (((m.z.x * m.w.z - m.w.x * m.z.z) * m.x.w + (m.w.x * m.x.z - m.x.x * m.w.z) * m.z.w + (m.x.x * m.z.z - m.z.x * m.x.z) * m.w.w) * rn) + m.z.w * ((-((m.y.x * m.w.z - m.w.x * m.y.z) * m.x.w + (m.w.x * m.x.z - m.x.x * m.w.z) * m.y.w + (m.x.x * m.y.z - m.y.x * m.x.z) * m.w.w)) * rn) + m.w.w * (((m.y.x * m.z.z - m.z.x * m.y.z) * m.x.w + (m.z.x * m.x.z - m.x.x * m.z.z) * m.y.w + (m.x.x * m.y.z - m.y.x * m.x.z) * m.z.w) * rn) == (m.x.w * (-((m.z.x * m.w.z - m.w.x * m.z.z) * m.y.w + (m.w.x * m.y.z - m.y.x * m.w.z) * m.z.w + (m.y.x * m.z.z - m.z.x * m.y.z) * m.w.w)) + m.y.w * ((m.z.x * m.w.z - m.w.x * m.z.z) * m.x.w + (m.w.x * m.x.z - m.x.x * m.w.z) * m.z.w + (m.x.x * m.z.z - m.z.x * m.x.z) * m.w.w) + m.z.w * (-((m.y.x * m.w.z - m.w.x * m.y.z) * m.x.w + (m.w.x * m.x.z - m.x.x * m.w.z) * m.y.w + (m.x.x * m.y.z - m.y.x * m.x.z) * m.w.w)) + m.w.w * ((m.y.x * m.z.z - m.z.x * m.y.z) * m.x.w + (m.z.x * m.x.z - m.x.x * m.z.z) * m.y.w + (m.x.x * m.y.z - m.y.x * m.x.z) * m.z.w)) * rn,
{
    let e0: int = -((m.z.x * m.w.z - m.w.x * m.z.z) * m.y.w + (m.w.x * m.y.z - m.y.x * m.w.z) * m.z.w + (m.y.x * m.z.z - m.z.x * m.y.z) * m.w.w);
    let e1: int = (m.z.x * m.w.z - m.w.x * m.z.z) * m.x.w + (m.w.x * m.x.z - m.x.x * m.w.z) * m.z.w + (m.x.x * m.z.z - m.z.x * m.x.z) * m.w.w;
    let e2: int = -((m.y.x * m.w.z - m.w.x * m.y.z) * m.x.w + (m.w.x * m.x.z - m.x.x * m.w.z) * m.y.w + (m.x.x * m.y.z - m.y.x * m.x.z) * m.w.w);
    let e3: int = (m.y.x * m.z.z - m.z.x * m.y.z) * m.x.w + (m.z.x * m.x.z - m.x.x * m.z.z) * m.y.w + (m.x.x * m.y.z - m.y.x * m.x.z) * m.z.w;
    assert(m.x.w * (e0 * rn) == m.x.w * e0 * rn
        && m.y.w * (e1 * rn) == m.y.w * e1 * rn
        && m.z.w * (e2 * rn) == m.z.w * e2 * rn
        && m.w.w * (e3 * rn) == m.w.w * e3 * rn
        && (m.x.w * e0 + m.y.w * e1) * rn == (m.x.w * e0) * rn + (m.y.w * e1) * rn
        && (m.x.w * e0 + m.y.w * e1 + m.z.w * e2) * rn == (m.x.w * e0 + m.y.w * e1) * rn + (m.z.w * e2) * rn
        && (m.x.w * e0 + m.y.w * e1 + m.z.w * e2 + m.w.w * e3) * rn == (m.x.w * e0 + m.y.w * e1 + m.z.w * e2) * rn + (m.w.w * e3) * rn
    ) by (nonlinear_arith);
}

proof fn inv4_factor_z_x(m: M4, rn: int)
    ensures
        m.x.x * (((m.z.x * m.w.y - m.w.x * m.z.y) * m.y.w + (m.w.x * m.y.y - m.y.x * m.w.y) * m.z.w + (m.y.x * m.z.y - m.z.x * m.y.y) * m.w.w) * rn) + m.y.x * ((-((m.z.x * m.w.y - m.w.x * m.z.y) * m.x.w + (m.w.x * m.x.y - m.x.x * m.w.y) * m.z.w + (m.x.x * m.z.y - m.z.x * m.x.y) * m.w.w)) * rn) + m.z.x * (((m.y.x * m.w.y - m.w.x * m.y.y) * m.x.w + (m.w.x * m.x.y - m.x.x * m.w.y) * m.y.w + (m.x.x * m.y.y - m.y.x * m.x.y) * m.w.w) * rn) + m.w.x * ((-((m.y.x * m.z.y - m.z.x * m.y.y) * m.x.w + (m.z.x * m.x.y - m.x.x * m.z.y) * m.y.w + (m.x.x * m.y.y - m.y.x * m.x.y) * m.z.w)) * rn) == (m.x.x * ((m.z.x * m.w.y - m.w.x * m.z.y) * m.y.w + (m.w.x * m.y.y - m.y.x * m.w.y) * m.z.w + (m.y.x * m.z.y - m.z.x * m.y.y) * m.w.w) + m.y.x * (-((m.z.x * m.w.y - m.w.x * m.z.y) * m.x.w + (m.w.x * m.x.y - m.x.x * m.w.y) * m.z.w + (m.x.x * m.z.y - m.z.x * m.x.y) * m.w.w)) + m.z.x * ((m.y.x * m.w.y - m.w.x * m.y.y) * m.x.w + (m.w.x * m.x.y - m.x.x * m.w.y) * m.y.w + (m.x.x * m.y.y - m.y.x * m.x.y) * m.w.w) + m.w.x * (-((m.y.x * m.z.y - m.z.x * m.y.y) * m.x.w + (m.z.x * m.x.y - m.x.x * m.z.y) * m.y.w + (m.x.x * m.y.y - m.y.x * m.x.y) * m.z.w))) * rn,
{
    let e0: int = (m.z.x * m.w.y - m.w.x * m.z.y) * m.y.w + (m.w.x * m.y.y - m.y.x * m.w.y) * m.z.w + (m.y.x * m.z.y - m.z.x * m.y.y) * m.w.w;
    let e1: int = -((m.z.x * m.w.y - m.w.x * m.z.y) * m.x.w + (m.w.x * m.x.y - m.x.x * m.w.y) * m.z.w + (m.x.x * m.z.y - m.z.x * m.x.y) * m.w.w);
    let e2: int = (m.y.x * m.w.y - m.w.x * m.y.y) * m.x.w + (m.w.x * m.x.y - m.x.x * m.w.y) * m.y.w + (m.x.x * m.y.y - m.y.x * m.x.y) * m.w.w;
    let e3: int = -((m.y.x * m.z.y - m.z.x * m.y.y) * m.x.w + (m.z.x * m.x.y - m.x.x * m.z.y) * m.y.w + (m.x.x * m.y.y - m.y.x * m.x.y) * m.z.w);
    assert(m.x.x * (e0 * rn) == m.x.x * e0 * rn
        && m.y.x * (e1 * rn) == m.y.x * e1 * rn
        && m.z.x * (e2 * rn) == m.z.x * e2 * rn
        && m.w.x * (e3 * rn) == m.w.x * e3 * rn
        && (m.x.x * e0 + m.y.x * e1) * rn == (m.x.x * e0) * rn + (m.y.x * e1) * rn
        && (m.x.x * e0 + m.y.x * e1 + m.z.x * e2) * rn == (m.x.x * e0 + m.y.x * e1) * rn + (m.z.x * e2) * rn
        && (m.x.x * e0 + m.y.x * e1 + m.z.x * e2 + m.w.x * e3) * rn == (m.x.x * e0 + m.y.x * e1 + m.z.x * e2) * rn + (m.w.x * e3) * rn
    ) by (nonlinear_arith);
}

proof fn inv4_factor_z_y(m: M4, rn: int)
    ensures
        m.x.y * (((m.z.x * m.w.y - m.w.x * m.z.y) * m.y.w + (m.w.x * m.y.y - m.y.x * m.w.y) * m.z.w + (m.y.x * m.z.y - m.z.x * m.y.y) * m.w.w) * rn) + m.y.y * ((-((m.z.x * m.w.y - m.w.x * m.z.y) * m.x.w + (m.w.x * m.x.y - m.x.x * m.w.y) * m.z.w + (m.x.x * m.z.y - m.z.x * m.x.y) * m.w.w)) * rn) + m.z.y * (((m.y.x * m.w.y - m.w.x * m.y.y) * m.x.w + (m.w.x * m.x.y - m.x.x * m.w.y) * m.y.w + (m.x.x * m.y.y - m.y.x * m.x.y) * m.w.w) * rn) + m.w.y * ((-((m.y.x * m.z.y - m.z.x * m.y.y) * m.x.w + (m.z.x * m.x.y - m.x.x * m.z.y) * m.y.w + (m.x.x * m.y.y - m.y.x * m.x.y) * m.z.w)) * rn) == (m.x.y * ((m.z.x * m.w.y - m.w.x * m.z.y) * m.y.w + (m.w.x * m.y.y - m.y.x * m.w.y) * m.z.w + (m.y.x * m.z.y - m.z.x * m.y.y) * m.w.w) + m.y.y * (-((m.z.x * m.w.y - m.w.x * m.z.y) * m.x.w + (m.w.x * m.x.y - m.x.x * m.w.y) * m.z.w + (m.x.x * m.z.y - m.z.x * m.x.y) * m.w.w)) + m.z.y * ((m.y.x * m.w.y - m.w.x * m.y.y) * m.x.w + (m.w.x * m.x.y - m.x.x * m.w.y) * m.y.w + (m.x.x * m.y.y - m.y.x * m.x.y) * m.w.w) + m.w.y * (-((m.y.x * m.z.y - m.z.x * m.y.y) * m.x.w + (m.z.x * m.x.y - m.x.x * m.z.y) * m.y.w + (m.x.x * m.y.y - m.y.x * m.x.y) * m.z.w))) * rn,
{
    let e0: int = (m.z.x * m.w.y - m.w.x * m.z.y) * m.y.w + (m.w.x * m.y.y - m.y.x * m.w.y) * m.z.w + (m.y.x * m.z.y - m.z.x * m.y.y) * m.w.w;
    let e1: int = -((m.z.x * m.w.y - m.w.x * m.z.y) * m.x.w + (m.w.x * m.x.y - m.x.x * m.w.y) * m.z.w + (m.x.x * m.z.y - m.z.x * m.x.y) * m.w.w);
    let e2: int = (m.y.x * m.w.y - m.w.x * m.y.y) * m.x.w + (m.w.x * m.x.y - m.x.x * m.w.y) * m.y.w + (m.x.x * m.y.y - m.y.x * m.x.y) * m.w.w;
    let e3: int = -((m.y.x * m.z.y - m.z.x * m.y.y) * m.x.w + (m.z.x * m.x.y - m.x.x * m.z.y) * m.y.w + (m.x.x * m.y.y - m.y.x * m.x.y) * m.z.w);
    assert(m.x.y * (e0 * rn) == m.x.y * e0 * rn
        && m.y.y * (e1 * rn) == m.y.y * e1 * rn
        && m.z.y * (e2 * rn) == m.z.y * e2 * rn
        && m.w.y * (e3 * rn) == m.w.y * e3 * rn
        && (m.x.y * e0 + m.y.y * e1) * rn == (m.x.y * e0) * rn + (m.y.y * e1) * rn
        && (m.x.y * e0 + m.y.y * e1 + m.z.y * e2) * rn == (m.x.y * e0 + m.y.y * e1) * rn + (m.z.y * e2) * rn
        && (m.x.y * e0 + m.y.y * e1 + m.z.y * e2 + m.w.y * e3) * rn == (m.x.y * e0 + m.y.y * e1 + m.z.y * e2) * rn + (m.w.y * e3) * rn
    ) by (nonlinear_arith);
}

proof fn inv4_factor_z_z(m: M4, rn: int)
    ensures
        m.x.z * (((m.z.x * m.w.y - m.w.x * m.z.y) * m.y.w + (m.w.x * m.y.y - m.y.x * m.w.y) * m.z.w + (m.y.x * m.z.y - m.z.x * m.y.y) * m.w.w) * rn) + m.y.z * ((-((m.z.x * m.w.y - m.w.x * m.z.y) * m.x.w + (m.w.x * m.x.y - m.x.x * m.w.y) * m.z.w + (m.x.x * m.z.y - m.z.x * m.x.y) * m.w.w)) * rn) + m.z.z * (((m.y.x * m.w.y - m.w.x * m.y.y) * m.x.w + (m.w.x * m.x.y - m.x.x * m.w.y) * m.y.w + (m.x.x * m.y.y - m.y.x * m.x.y) * m.w.w) * rn) + m.w.z * ((-((m.y.x * m.z.y - m.z.x * m.y.y) * m.x.w + (m.z.x * m.x.y - m.x.x * m.z.y) * m.y.w + (m.x.x * m.y.y - m.y.x * m.x.y) * m.z.w)) * rn) == (m.x.z * ((m.z.x * m.w.y - m.w.x * m.z.y) * m.y.w + (m.w.x * m.y.y - m.y.x * m.w.y) * m.z.w + (m.y.x * m.z.y - m.z.x * m.y.y) * m.w.w) + m.y.z * (-((m.z.x * m.w.y - m.w.x * m.z.y) * m.x.w + (m.w.x * m.x.y - m.x.x * m.w.y) * m.z.w + (m.x.x * m.z.y - m.z.x * m.x.y) * m.w.w)) + m.z.z * ((m.y.x * m.w.y - m.w.x * m.y.y) * m.x.w + (m.w.x * m.x.y - m.x.x * m.w.y) * m.y.w + (m.x.x * m.y.y - m.y.x * m.x.y) * m.w.w) + m.w.z * (-((m.y.x * m.z.y - m.z.x * m.y.y) * m.x.w + (m.z.x * m.x.y - m.x.x * m.z.y) * m.y.w + (m.x.x * m.y.y - m.y.x * m.x.y) * m.z.w))) * rn,
{
    let e0: int = (m.z.x * m.w.y - m.w.x * m.z.y) * m.y.w + (m.w.x * m.y.y - m.y.x * m.w.y) * m.z.w + (m.y.x * m.z.y - m.z.x * m.y.y) * m.w.w;
    let e1: int = -((m.z.x * m.w.y - m.w.x * m.z.y) * m.x.w + (m.w.x * m.x.y - m.x.x * m.w.y) * m.z.w + (m.x.x * m.z.y - m.z.x * m.x.y) * m.w.w);
    let e2: int = (m.y.x * m.w.y - m.w.x * m.y.y) * m.x.w + (m.w.x * m.x.y - m.x.x * m.w.y) * m.y.w + (m.x.x * m.y.y - m.y.x * m.x.y) * m.w.w;
    let e3: int = -((m.y.x * m.z.y - m.z.x * m.y.y) * m.x.w + (m.z.x * m.x.y - m.x.x * m.z.y) * m.y.w + (m.x.x * m.y.y - m.y.x * m.x.y) * m.z.w);
    assert(m.x.z * (e0 * rn) == m.x.z * e0 * rn
        && m.y.z * (e1 * rn) == m.y.z * e1 * rn
        && m.z.z * (e2 * rn) == m.z.z * e2 * rn
        && m.w.z * (e3 * rn) == m.w.z * e3 * rn
        && (m.x.z * e0 + m.y.z * e1) * rn == (m.x.z * e0) * rn + (m.y.z * e1) * rn
        && (m.x.z * e0 + m.y.z * e1 + m.z.z * e2) * rn == (m.x.z * e0 + m.y.z * e1) * rn + (m.z.z * e2) * rn
        && (m.x.z * e0 + m.y.z * e1 + m.z.z * e2 + m.w.z * e3) * rn == (m.x.z * e0 + m.y.z * e1 + m.z.z * e2) * rn + (m.w.z * e3) * rn
    ) by (nonlinear_arith);
}

proof fn inv4_factor_z_w(m: M4, rn: int)
    ensures
        m.x.w * (((m.z.x * m.w.y - m.w.x * m.z.y) * m.y.w + (m.w.x * m.y.y - m.y.x * m.w.y) * m.z.w + (m.y.x * m.z.y - m.z.x * m.y.y) * m.w.w) * rn) + m.y.w * ((-((m.z.x * m.w.y - m.w.x * m.z.y) * m.x.w + (m.w.x * m.x.y - m.x.x * m.w.y) * m.z.w + (m.x.x * m.z.y - m.z.x * m.x.y) * m.w.w)) * rn) + m.z.w * (((m.y.x * m.w.y - m.w.x * m.y.y) * m.x.w + (m.w.x * m.x.y - m.x.x * m.w.y) * m.y.w + (m.x.x * m.y.y - m.y.x * m.x.y) * m.w.w) * rn) + m.w.w * ((-((m.y.x * m.z.y - m.z.x * m.y.y) * m.x.w + (m.z.x * m.x.y - m.x.x * m.z.y) * m.y.w + (m.x.x * m.y.y - m.y.x * m.x.y) * m.z.w)) * rn) == (m.x.w * ((m.z.x * m.w.y - m.w.x * m.z.y) * m.y.w + (m.w.x * m.y.y - m.y.x * m.w.y) * m.z.w + (m.y.x * m.z.y - m.z.x * m.y.y) * m.w.w) + m.y.w * (-((m.z.x * m.w.y - m.w.x * m.z.y) * m.x.w + (m.w.x * m.x.y - m.x.x * m.w.y) * m.z.w + (m.x.x * m.z.y - m.z.x * m.x.y) * m.w.w)) + m.z.w * ((m.y.x * m.w.y - m.w.x * m.y.y) * m.x.w + (m.w.x * m.x.y - m.x.x * m.w.y) * m.y.w + (m.x.x * m.y.y - m.y.x * m.x.y) * m.w.w) + m.w.w * (-((m.y.x * m.z.y - m.z.x * m.y.y) * m.x.w + (m.z.x * m.x.y - m.x.x * m.z.y) * m.y.w + (m.x.x * m.y.y - m.y.x * m.x.y) * m.z.w))) * rn,
{
    let e0: int = (m.z.x * m.w.y - m.w.x * m.z.y) * m.y.w + (m.w.x * m.y.y - m.y.x * m.w.y) * m.z.w + (m.y.x * m.z.y - m.z.x * m.y.y) * m.w.w;
    let e1: int = -((m.z.x * m.w.y - m.w.x * m.z.y) * m.x.w + (m.w.x * m.x.y - m.x.x * m.w.y) * m.z.w + (m.x.x * m.z.y - m.z.x * m.x.y) * m.w.w);
    let e2: int = (m.y.x * m.w.y - m.w.x * m.y.y) * m.x.w + (m.w.x * m.x.y - m.x.x * m.w.y) * m.y.w + (m.x.x * m.y.y - m.y.x * m.x.y) * m.w.w;
    let e3: int = -((m.y.x * m.z.y - m.z.x * m.y.y) * m.x.w + (m.z.x * m.x.y - m.x.x * m.z.y) * m.y.w + (m.x.x * m.y.y - m.y.x * m.x.y) * m.z.w);
    assert(m.x.w * (e0 * rn) == m.x.w * e0 * rn
        && m.y.w * (e1 * rn) == m.y.w * e1 * rn
        && m.z.w * (e2 * rn) == m.z.w * e2 * rn
        && m.w.w * (e3 * rn) == m.w.w * e3 * rn
        && (m.x.w * e0 + m.y.w * e1) * rn == (m.x.w * e0) * rn + (m.y.w * e1) * rn
        && (m.x.w * e0 + m.y.w * e1 + m.z.w * e2) * rn == (m.x.w * e0 + m.y.w * e1) * rn + (m.z.w * e2) * rn
        && (m.x.w * e0 + m.y.w * e1 + m.z.w * e2 + m.w.w * e3) * rn == (m.x.w * e0 + m.y.w * e1 + m.z.w * e2) * rn + (m.w.w * e3) * rn
    ) by (nonlinear_arith);
}

proof fn inv4_factor_w_x(m: M4, rn: int)
    ensures
        m.x.x * ((-((m.z.x * m.w.y - m.w.x * m.z.y) * m.y.z + (m.w.x * m.y.y - m.y.x * m.w.y) * m.z.z + (m.y.x * m.z.y - m.z.x * m.y.y) * m.w.z)) * rn) + m.y.x * (((m.z.x * m.w.y - m.w.x * m.z.y) * m.x.z + (m.w.x * m.x.y - m.x.x * m.w.y) * m.z.z + (m.x.x * m.z.y - m.z.x * m.x.y) * m.w.z) * rn) + m.z.x * ((-((m.y.x * m.w.y - m.w.x * m.y.y) * m.x.z + (m.w.x * m.x.y - m.x.x * m.w.y) * m.y.z + (m.x.x * m.y.y - m.y.x * m.x.y) * m.w.z)) * rn) + m.w.x * (((m.y.x * m.z.y - m.z.x * m.y.y) * m.x.z + (m.z.x * m.x.y - m.x.x * m.z.y) * m.y.z + (m.x.x * m.y.y - m.y.x * m.x.y) * m.z.z) * rn) == (m.x.x * (-((m.z.x * m.w.y - m.w.x * m.z.y) * m.y.z + (m.w.x * m.y.y - m.y.x * m.w.y) * m.z.z + (m.y.x * m.z.y - m.z.x * m.y.y) * m.w.z)) + m.y.x * ((m.z.x * m.w.y - m.w.x * m.z.y) * m.x.z + (m.w.x * m.x.y - m.x.x * m.w.y) * m.z.z + (m.x.x * m.z.y - m.z.x * m.x.y) * m.w.z) + m.z.x * (-((m.y.x * m.w.y - m.w.x * m.y.y) * m.x.z + (m.w.x * m.x.y - m.x.x * m.w.y) * m.y.z + (m.x.x * m.y.y - m.y.x * m.x.y) * m.w.z)) + m.w.x * ((m.y.x * m.z.y - m.z.x * m.y.y) * m.x.z + (m.z.x * m.x.y - m.x.x * m.z.y) * m.y.z + (m.x.x * m.y.y - m.y.x * m.x.y) * m.z.z)) * rn,
{
    let e0: int = -((m.z.x * m.w.y - m.w.x * m.z.y) * m.y.z + (m.w.x * m.y.y - m.y.x * m.w.y) * m.z.z + (m.y.x * m.z.y - m.z.x * m.y.y) * m.w.z);
    let e1: int = (m.z.x * m.w.y - m.w.x * m.z.y) * m.x.z + (m.w.x * m.x.y - m.x.x * m.w.y) * m.z.z + (m.x.x * m.z.y - m.z.x * m.x.y) * m.w.z;
    let e2: int = -((m.y.x * m.w.y - m.w.x * m.y.y) * m.x.z + (m.w.x * m.x.y - m.x.x * m.w.y) * m.y.z + (m.x.x * m.y.y - m.y.x * m.x.y) * m.w.z);
    let e3: int = (m.y.x * m.z.y - m.z.x * m.y.y) * m.x.z + (m.z.x * m.x.y - m.x.x * m.z.y) * m.y.z + (m.x.x * m.y.y - m.y.x * m.x.y) * m.z.z;
    assert(m.x.x * (e0 * rn) == m.x.x * e0 * rn
        && m.y.x * (e1 * rn) == m.y.x * e1 * rn
        && m.z.x * (e2 * rn) == m.z.x * e2 * rn
        && m.w.x * (e3 * rn) == m.w.x * e3 * rn
        && (m.x.x * e0 + m.y.x * e1) * rn == (m.x.x * e0) * rn + (m.y.x * e1) * rn
        && (m.x.x * e0 + m.y.x * e1 + m.z.x * e2) * rn == (m.x.x * e0 + m.y.x * e1) * rn + (m.z.x * e2) * rn
        && (m.x.x * e0 + m.y.x * e1 + m.z.x * e2 + m.w.x * e3) * rn == (m.x.x * e0 + m.y.x * e1 + m.z.x * e2) * rn + (m.w.x * e3) * rn
    ) by (nonlinear_arith);
}

proof fn inv4_factor_w_y(m: M4, rn: int)
    ensures
        m.x.y * ((-((m.z.x * m.w.y - m.w.x * m.z.y) * m.y.z + (m.w.x * m.y.y - m.y.x * m.w.y) * m.z.z + (m.y.x * m.z.y - m.z.x * m.y.y) * m.w.z)) * rn) + m.y.y * (((m.z.x * m.w.y - m.w.x * m.z.y) * m.x.z + (m.w.x * m.x.y - m.x.x * m.w.y) * m.z.z + (m.x.x * m.z.y - m.z.x * m.x.y) * m.w.z) * rn) + m.z.y * ((-((m.y.x * m.w.y - m.w.x * m.y.y) * m.x.z + (m.w.x * m.x.y - m.x.x * m.w.y) * m.y.z + (m.x.x * m.y.y - m.y.x * m.x.y) * m.w.z)) * rn) + m.w.y * (((m.y.x * m.z.y - m.z.x * m.y.y) * m.x.z + (m.z.x * m.x.y - m.x.x * m.z.y) * m.y.z + (m.x.x * m.y.y - m.y.x * m.x.y) * m.z.z) * rn) == (m.x.y * (-((m.z.x * m.w.y - m.w.x * m.z.y) * m.y.z + (m.w.x * m.y.y - m.y.x * m.w.y) * m.z.z + (m.y.x * m.z.y - m.z.x * m.y.y) * m.w.z)) + m.y.y * ((m.z.x * m.w.y - m.w.x * m.z.y) * m.x.z + (m.w.x * m.x.y - m.x.x * m.w.y) * m.z.z + (m.x.x * m.z.y - m.z.x * m.x.y) * m.w.z) + m.z.y * (-((m.y.x * m.w.y - m.w.x * m.y.y) * m.x.z + (m.w.x * m.x.y - m.x.x * m.w.y) * m.y.z + (m.x.x * m.y.y - m.y.x * m.x.y) * m.w.z)) + m.w.y * ((m.y.x * m.z.y - m.z.x * m.y.y) * m.x.z + (m.z.x * m.x.y - m.x.x * m.z.y) * m.y.z + (m.x.x * m.y.y - m.y.x * m.x.y) * m.z.z)) * rn,
{
    let e0: int = -((m.z.x * m.w.y - m.w.x * m.z.y) * m.y.z + (m.w.x * m.y.y - m.y.x * m.w.y) * m.z.z + (m.y.x * m.z.y - m.z.x * m.y.y) * m.w.z);
    let e1: int = (m.z.x * m.w.y - m.w.x * m.z.y) * m.x.z + (m.w.x * m.x.y - m.x.x * m.w.y) * m.z.z + (m.x.x * m.z.y - m.z.x * m.x.y) * m.w.z;
    let e2: int = -((m.y.x * m.w.y - m.w.x * m.y.y) * m.x.z + (m.w.x * m.x.y - m.x.x * m.w.y) * m.y.z + (m.x.x * m.y.y - m.y.x * m.x.y) * m.w.z);
    let e3: int = (m.y.x * m.z.y - m.z.x * m.y.y) * m.x.z + (m.z.x * m.x.y - m.x.x * m.z.y) * m.y.z + (m.x.x * m.y.y - m.y.x * m.x.y) * m.z.z;
    assert(m.x.y * (e0 * rn) == m.x.y * e0 * rn
        && m.y.y * (e1 * rn) == m.y.y * e1 * rn
        && m.z.y * (e2 * rn) == m.z.y * e2 * rn
        && m.w.y * (e3 * rn) == m.w.y * e3 * rn
        && (m.x.y * e0 + m.y.y * e1) * rn == (m.x.y * e0) * rn + (m.y.y * e1) * rn
        && (m.x.y * e0 + m.y.y * e1 + m.z.y * e2) * rn == (m.x.y * e0 + m.y.y * e1) * rn + (m.z.y * e2) * rn
        && (m.x.y * e0 + m.y.y * e1 + m.z.y * e2 + m.w.y * e3) * rn == (m.x.y * e0 + m.y.y * e1 + m.z.y * e2) * rn + (m.w.y * e3) * rn
    ) by (nonlinear_arith);
}

proof fn inv4_factor_w_z(m: M4, rn: int)
    ensures
        m.x.z * ((-((m.z.x * m.w.y - m.w.x * m.z.y) * m.y.z + (m.w.x * m.y.y - m.y.x * m.w.y) * m.z.z + (m.y.x * m.z.y - m.z.x * m.y.y) * m.w.z)) * rn) + m.y.z * (((m.z.x * m.w.y - m.w.x * m.z.y) * m.x.z + (m.w.x * m.x.y - m.x.x * m.w.y) * m.z.z + (m.x.x * m.z.y - m.z.x * m.x.y) * m.w.z) * rn) + m.z.z * ((-((m.y.x * m.w.y - m.w.x * m.y.y) * m.x.z + (m.w.x * m.x.y - m.x.x * m.w.y) * m.y.z + (m.x.x * m.y.y - m.y.x * m.x.y) * m.w.z)) * rn) + m.w.z * (((m.y.x * m.z.y - m.z.x * m.y.y) * m.x.z + (m.z.x * m.x.y - m.x.x * m.z.y) * m.y.z + (m.x.x * m.y.y - m.y.x * m.x.y) * m.z.z) * rn) == (m.x.z * (-((m.z.x * m.w.y - m.w.x * m.z.y) * m.y.z + (m.w.x * m.y.y - m.y.x * m.w.y) * m.z.z + (m.y.x * m.z.y - m.z.x * m.y.y) * m.w.z)) + m.y.z * ((m.z.x * m.w.y - m.w.x * m.z.y) * m.x.z + (m.w.x * m.x.y - m.x.x * m.w.y) * m.z.z + (m.x.x * m.z.y - m.z.x * m.x.y) * m.w.z) + m.z.z * (-((m.y.x * m.w.y - m.w.x * m.y.y) * m.x.z + (m.w.x * m.x.y - m.x.x * m.w.y) * m.y.z + (m.x.x * m.y.y - m.y.x * m.x.y) * m.w.z)) + m.w.z * ((m.y.x * m.z.y - m.z.x * m.y.y) * m.x.z + (m.z.x * m.x.y - m.x.x * m.z.y) * m.y.z + (m.x.x * m.y.y - m.y.x * m.x.y) * m.z.z)) * rn,
{
    let e0: int = -((m.z.x * m.w.y - m.w.x * m.z.y) * m.y.z + (m.w.x * m.y.y - m.y.x * m.w.y) * m.z.z + (m.y.x * m.z.y - m.z.x * m.y.y) * m.w.z);
    let e1: int = (m.z.x * m.w.y - m.w.x * m.z.y) * m.x.z + (m.w.x * m.x.y - m.x.x * m.w.y) * m.z.z + (m.x.x * m.z.y - m.z.x * m.x.y) * m.w.z;
    let e2: int = -((m.y.x * m.w.y - m.w.x * m.y.y) * m.x.z + (m.w.x * m.x.y - m.x.x * m.w.y) * m.y.z + (m.x.x * m.y.y - m.y.x * m.x.y) * m.w.z);
    let e3: int = (m.y.x * m.z.y - m.z.x * m.y.y) * m.x.z + (m.z.x * m.x.y - m.x.x * m.z.y) * m.y.z + (m.x.x * m.y.y - m.y.x * m.x.y) * m.z.z;
    assert(m.x.z * (e0 * rn) == m.x.z * e0 * rn
        && m.y.z * (e1 * rn) == m.y.z * e1 * rn
        && m.z.z * (e2 * rn) == m.z.z * e2 * rn
        && m.w.z * (e3 * rn) == m.w.z * e3 * rn
        && (m.x.z * e0 + m.y.z * e1) * rn == (m.x.z * e0) * rn + (m.y.z * e1) * rn
        && (m.x.z * e0 + m.y.z * e1 + m.z.z * e2) * rn == (m.x.z * e0 + m.y.z * e1) * rn + (m.z.z * e2) * rn
        && (m.x.z * e0 + m.y.z * e1 + m.z.z * e2 + m.w.z * e3) * rn == (m.x.z * e0 + m.y.z * e1 + m.z.z * e2) * rn + (m.w.z * e3) * rn
    ) by (nonlinear_arith);
}

proof fn inv4_factor_w_w(m: M4, rn: int)
    ensures
        m.x.w * ((-((m.z.x * m.w.y - m.w.x * m.z.y) * m.y.z + (m.w.x * m.y.y - m.y.x * m.w.y) * m.z.z + (m.y.x * m.z.y - m.z.x * m.y.y) * m.w.z)) * rn) + m.y.w * (((m.z.x * m.w.y - m.w.x * m.z.y) * m.x.z + (m.w.x * m.x.y - m.x.x * m.w.y) * m.z.z + (m.x.x * m.z.y - m.z.x * m.x.y) * m.w.z) * rn) + m.z.w * ((-((m.y.x * m.w.y - m.w.x * m.y.y) * m.x.z + (m.w.x * m.x.y - m.x.x * m.w.y) * m.y.z + (m.x.x * m.y.y - m.y.x * m.x.y) * m.w.z)) * rn) + m.w.w * (((m.y.x * m.z.y - m.z.x * m.y.y) * m.x.z + (m.z.x * m.x.y - m.x.x * m.z.y) * m.y.z + (m.x.x * m.y.y - m.y.x * m.x.y) * m.z.z) * rn) == (m.x.w * (-((m.z.x * m.w.y - m.w.x * m.z.y) * m.y.z + (m.w.x * m.y.y - m.y.x * m.w.y) * m.z.z + (m.y.x * m.z.y - m.z.x * m.y.y) * m.w.z)) + m.y.w * ((m.z.x * m.w.y - m.w.x * m.z.y) * m.x.z + (m.w.x * m.x.y - m.x.x * m.w.y) * m.z.z + (m.x.x * m.z.y - m.z.x * m.x.y) * m.w.z) + m.z.w * (-((m.y.x * m.w.y - m.w.x * m.y.y) * m.x.z + (m.w.x * m.x.y - m.x.x * m.w.y) * m.y.z + (m.x.x * m.y.y - m.y.x * m.x.y) * m.w.z)) + m.w.w * ((m.y.x * m.z.y - m.z.x * m.y.y) * m.x.z + (m.z.x * m.x.y - m.x.x * m.z.y) * m.y.z + (m.x.x * m.y.y - m.y.x * m.x.y) * m.z.z)) * rn,
{
    let e0: int = -((m.z.x * m.w.y - m.w.x * m.z.y) * m.y.z + (m.w.x * m.y.y - m.y.x * m.w.y) * m.z.z + (m.y.x * m.z.y - m.z.x * m.y.y) * m.w.z);
    let e1: int = (m.z.x * m.w.y - m.w.x * m.z.y) * m.x.z + (m.w.x * m.x.y - m.x.x * m.w.y) * m.z.z + (m.x.x * m.z.y - m.z.x * m.x.y) * m.w.z;
    let e2: int = -((m.y.x * m.w.y - m.w.x * m.y.y) * m.x.z + (m.w.x * m.x.y - m.x.x * m.w.y) * m.y.z + (m.x.x * m.y.y - m.y.x * m.x.y) * m.w.z);
    let e3: int = (m.y.x * m.z.y - m.z.x * m.y.y) * m.x.z + (m.z.x * m.x.y - m.x.x * m.z.y) * m.y.z + (m.x.x * m.y.y - m.y.x * m.x.y) * m.z.z;
    assert(m.x.w * (e0 * rn) == m.x.w * e0 * rn
        && m.y.w * (e1 * rn) == m.y.w * e1 * rn
        && m.z.w * (e2 * rn) == m.z.w * e2 * rn
        && m.w.w * (e3 * rn) == m.w.w * e3 * rn
        && (m.x.w * e0 + m.y.w * e1) * rn == (m.x.w * e0) * rn + (m.y.w * e1) * rn
        && (m.x.w * e0 + m.y.w * e1 + m.z.w * e2) * rn == (m.x.w * e0 + m.y.w * e1) * rn + (m.z.w * e2) * rn
        && (m.x.w * e0 + m.y.w * e1 + m.z.w * e2 + m.w.w * e3) * rn == (m.x.w * e0 + m.y.w * e1 + m.z.w * e2) * rn + (m.w.w * e3) * rn
    ) by (nonlinear_arith);
}

/// The inverse law: an invertible matrix times its inverse denotes the
/// identity.
#[verifier::rlimit(50)]
pub proof fn lemma_mul_inverse_identity_4(m: M4)
    requires
        m4_wf(m),
        m4_det(m).n != 0,
    ensures
        m4_inverse(m) matches Some(inv) && m4_sim(m4_mul(m, inv), m4_identity()),
{
    let rn: int = rat_recip(m4_det(m)).n;
    let rd: int = rat_recip(m4_det(m)).d;
    lemma_recip_cross(m4_det(m));
    adj4_col_x(m);
    inv4_factor_x_x(m, rn);
    inv4_factor_x_y(m, rn);
    inv4_factor_x_z(m, rn);
    inv4_factor_x_w(m, rn);
    adj4_col_y(m);
    inv4_factor_y_x(m, rn);
    inv4_factor_y_y(m, rn);
    inv4_factor_y_z(m, rn);
    inv4_factor_y_w(m, rn);
    adj4_col_z(m);
    inv4_factor_z_x(m, rn);
    inv4_factor_z_y(m, rn);
    inv4_factor_z_z(m, rn);
    inv4_factor_z_w(m, rn);
    adj4_col_w(m);
    inv4_factor_w_x(m, rn);
    inv4_factor_w_y(m, rn);
    inv4_factor_w_z(m, rn);
    inv4_factor_w_w(m, rn);
    assert((m.x.d * (m.y.d * m.z.d * m.w.d)) * rd == m.x.d * ((m.y.d * m.z.d * m.w.d) * rd)) by (nonlinear_arith)
        requires
            m.x.d == m.y.d,
            m.x.d == m.z.d,
            m.x.d == m.w.d,
    ;
    assert((m.x.d * (m.y.d * m.z.d * m.w.d)) * rd == m.x.d * ((m.x.d * m.z.d * m.w.d) * rd)) by (nonlinear_arith)
        requires
            m.x.d == m.y.d,
            m.x.d == m.z.d,
            m.x.d == m.w.d,
    ;
    assert((m.x.d * (m.y.d * m.z.d * m.w.d)) * rd == m.x.d * ((m.x.d * m.y.d * m.w.d) * rd)) by (nonlinear_arith)
        requires
            m.x.d == m.y.d,
            m.x.d == m.z.d,
            m.x.d == m.w.d,
    ;
    assert((m.x.d * (m.y.d * m.z.d * m.w.d)) * rd == m.x.d * ((m.x.d * m.y.d * m.z.d) * rd)) by (nonlinear_arith)
        requires
            m.x.d == m.y.d,
            m.x.d == m.z.d,
            m.x.d == m.w.d,
    ;
    let inv = m4_scalar_mul(m4_adjugate(m), rat_recip(m4_det(m)));
    assert(m4_det(m).n * rn == m4_det(m).d * rd);
    assert(m4_mul(m, inv).x.x == m.x.x * (((m.z.y * m.w.z - m.w.y * m.z.z) * m.y.w + (m.w.y * m.y.z - m.y.y * m.w.z) * m.z.w + (m.y.y * m.z.z - m.z.y * m.y.z) * m.w.w) * rn) + m.y.x * ((-((m.z.y * m.w.z - m.w.y * m.z.z) * m.x.w + (m.w.y * m.x.z - m.x.y * m.w.z) * m.z.w + (m.x.y * m.z.z - m.z.y * m.x.z) * m.w.w)) * rn) + m.z.x * (((m.y.y * m.w.z - m.w.y * m.y.z) * m.x.w + (m.w.y * m.x.z - m.x.y * m.w.z) * m.y.w + (m.x.y * m.y.z - m.y.y * m.x.z) * m.w.w) * rn) + m.w.x * ((-((m.y.y * m.z.z - m.z.y * m.y.z) * m.x.w + (m.z.y * m.x.z - m.x.y * m.z.z) * m.y.w + (m.x.y * m.y.z - m.y.y * m.x.z) * m.z.w)) * rn));
    assert(m4_mul(m, inv).x.x == m4_det(m).n * rn);
    assert(m4_mul(m, inv).x.y == m.x.y * (((m.z.y * m.w.z - m.w.y * m.z.z) * m.y.w + (m.w.y * m.y.z - m.y.y * m.w.z) * m.z.w + (m.y.y * m.z.z - m.z.y * m.y.z) * m.w.w) * rn) + m.y.y * ((-((m.z.y * m.w.z - m.w.y * m.z.z) * m.x.w + (m.w.y * m.x.z - m.x.y * m.w.z) * m.z.w + (m.x.y * m.z.z - m.z.y * m.x.z) * m.w.w)) * rn) + m.z.y * (((m.y.y * m.w.z - m.w.y * m.y.z) * m.x.w + (m.w.y * m.x.z - m.x.y * m.w.z) * m.y.w + (m.x.y * m.y.z - m.y.y * m.x.z) * m.w.w) * rn) + m.w.y * ((-((m.y.y * m.z.z - m.z.y * m.y.z) * m.x.w + (m.z.y * m.x.z - m.x.y * m.z.z) * m.y.w + (m.x.y * m.y.z - m.y.y * m.x.z) * m.z.w)) * rn));
    assert(m4_vec_mul(m, m4_adjugate(m).x).y == 0);
    assert(m4_mul(m, inv).x.y == 0);
    assert(m4_mul(m, inv).x.y * 1 == 0 * m4_mul(m, inv).x.d);
    assert(m4_mul(m, inv).x.z == m.x.z * (((m.z.y * m.w.z - m.w.y * m.z.z) * m.y.w + (m.w.y * m.y.z - m.y.y * m.w.z) * m.z.w + (m.y.y * m.z.z - m.z.y * m.y.z) * m.w.w) * rn) + m.y.z * ((-((m.z.y * m.w.z - m.w.y * m.z.z) * m.x.w + (m.w.y * m.x.z - m.x.y * m.w.z) * m.z.w + (m.x.y * m.z.z - m.z.y * m.x.z) * m.w.w)) * rn) + m.z.z * (((m.y.y * m.w.z - m.w.y * m.y.z) * m.x.w + (m.w.y * m.x.z - m.x.y * m.w.z) * m.y.w + (m.x.y * m.y.z - m.y.y * m.x.z) * m.w.w) * rn) + m.w.z * ((-((m.y.y * m.z.z - m.z.y * m.y.z) * m.x.w + (m.z.y * m.x.z - m.x.y * m.z.z) * m.y.w + (m.x.y * m.y.z - m.y.y * m.x.z) * m.z.w)) * rn));
    assert(m4_vec_mul(m, m4_adjugate(m).x).z == 0);
    assert(m4_mul(m, inv).x.z == 0);
    assert(m4_mul(m, inv).x.z * 1 == 0 * m4_mul(m, inv).x.d);
    assert(m4_mul(m, inv).x.w == m.x.w * (((m.z.y * m.w.z - m.w.y * m.z.z) * m.y.w + (m.w.y * m.y.z - m.y.y * m.w.z) * m.z.w + (m.y.y * m.z.z - m.z.y * m.y.z) * m.w.w) * rn) + m.y.w * ((-((m.z.y * m.w.z - m.w.y * m.z.z) * m.x.w + (m.w.y * m.x.z - m.x.y * m.w.z) * m.z.w + (m.x.y * m.z.z - m.z.y * m.x.z) * m.w.w)) * rn) + m.z.w * (((m.y.y * m.w.z - m.w.y * m.y.z) * m.x.w + (m.w.y * m.x.z - m.x.y * m.w.z) * m.y.w + (m.x.y * m.y.z - m.y.y * m.x.z) * m.w.w) * rn) + m.w.w * ((-((m.y.y * m.z.z - m.z.y * m.y.z) * m.x.w + (m.z.y * m.x.z - m.x.y * m.z.z) * m.y.w + (m.x.y * m.y.z - m.y.y * m.x.z) * m.z.w)) * rn));
    assert(m4_vec_mul(m, m4_adjugate(m).x).w == 0);
    assert(m4_mul(m, inv).x.w == 0);
    assert(m4_mul(m, inv).x.w * 1 == 0 * m4_mul(m, inv).x.d);
    assert(m4_mul(m, inv).x.d == m.x.d * ((m.y.d * m.z.d * m.w.d) * rd));
    assert(m4_det(m).d * rd == m4_mul(m, inv).x.d);
    assert(m4_mul(m, inv).x.x * 1 == 1 * m4_mul(m, inv).x.d);
    assert(v4_sim(m4_mul(m, inv).x, m4_identity().x));
    assert(m4_mul(m, inv).y.x == m.x.x * ((-((m.z.x * m.w.z - m.w.x * m.z.z) * m.y.w + (m.w.x * m.y.z - m.y.x * m.w.z) * m.z.w + (m.y.x * m.z.z - m.z.x * m.y.z) * m.w.w)) * rn) + m.y.x * (((m.z.x * m.w.z - m.w.x * m.z.z) * m.x.w + (m.w.x * m.x.z - m.x.x * m.w.z) * m.z.w + (m.x.x * m.z.z - m.z.x * m.x.z) * m.w.w) * rn) + m.z.x * ((-((m.y.x * m.w.z - m.w.x * m.y.z) * m.x.w + (m.w.x * m.x.z - m.x.x * m.w.z) * m.y.w + (m.x.x * m.y.z - m.y.x * m.x.z) * m.w.w)) * rn) + m.w.x * (((m.y.x * m.z.z - m.z.x * m.y.z) * m.x.w + (m.z.x * m.x.z - m.x.x * m.z.z) * m.y.w + (m.x.x * m.y.z - m.y.x * m.x.z) * m.z.w) * rn));
    assert(m4_vec_mul(m, m4_adjugate(m).y).x == 0);
    assert(m4_mul(m, inv).y.x == 0);
    assert(m4_mul(m, inv).y.x * 1 == 0 * m4_mul(m, inv).y.d);
    assert(m4_mul(m, inv).y.y == m.x.y * ((-((m.z.x * m.w.z - m.w.x * m.z.z) * m.y.w + (m.w.x * m.y.z - m.y.x * m.w.z) * m.z.w + (m.y.x * m.z.z - m.z.x * m.y.z) * m.w.w)) * rn) + m.y.y * (((m.z.x * m.w.z - m.w.x * m.z.z) * m.x.w + (m.w.x * m.x.z - m.x.x * m.w.z) * m.z.w + (m.x.x * m.z.z - m.z.x * m.x.z) * m.w.w) * rn) + m.z.y * ((-((m.y.x * m.w.z - m.w.x * m.y.z) * m.x.w + (m.w.x * m.x.z - m.x.x * m.w.z) * m.y.w + (m.x.x * m.y.z - m.y.x * m.x.z) * m.w.w)) * rn) + m.w.y * (((m.y.x * m.z.z - m.z.x * m.y.z) * m.x.w + (m.z.x * m.x.z - m.x.x * m.z.z) * m.y.w + (m.x.x * m.y.z - m.y.x * m.x.z) * m.z.w) * rn));
    assert(m4_mul(m, inv).y.y == m4_det(m).n * rn);
    assert(m4_mul(m, inv).y.z == m.x.z * ((-((m.z.x * m.w.z - m.w.x * m.z.z) * m.y.w + (m.w.x * m.y.z - m.y.x * m.w.z) * m.z.w + (m.y.x * m.z.z - m.z.x * m.y.z) * m.w.w)) * rn) + m.y.z * (((m.z.x * m.w.z - m.w.x * m.z.z) * m.x.w + (m.w.x * m.x.z - m.x.x * m.w.z) * m.z.w + (m.x.x * m.z.z - m.z.x * m.x.z) * m.w.w) * rn) + m.z.z * ((-((m.y.x * m.w.z - m.w.x * m.y.z) * m.x.w + (m.w.x * m.x.z - m.x.x * m.w.z) * m.y.w + (m.x.x * m.y.z - m.y.x * m.x.z) * m.w.w)) * rn) + m.w.z * (((m.y.x * m.z.z - m.z.x * m.y.z) * m.x.w + (m.z.x * m.x.z - m.x.x * m.z.z) * m.y.w + (m.x.x * m.y.z - m.y.x * m.x.z) * m.z.w) * rn));
    assert(m4_vec_mul(m, m4_adjugate(m).y).z == 0);
    assert(m4_mul(m, inv).y.z == 0);
    assert(m4_mul(m, inv).y.z * 1 == 0 * m4_mul(m, inv).y.d);
    assert(m4_mul(m, inv).y.w == m.x.w * ((-((m.z.x * m.w.z - m.w.x * m.z.z) * m.y.w + (m.w.x * m.y.z - m.y.x * m.w.z) * m.z.w + (m.y.x * m.z.z - m.z.x * m.y.z) * m.w.w)) * rn) + m.y.w * (((m.z.x * m.w.z - m.w.x * m.z.z) * m.x.w + (m.w.x * m.x.z - m.x.x * m.w.z) * m.z.w + (m.x.x * m.z.z - m.z.x * m.x.z) * m.w.w) * rn) + m.z.w * ((-((m.y.x * m.w.z - m.w.x * m.y.z) * m.x.w + (m.w.x * m.x.z - m.x.x * m.w.z) * m.y.w + (m.x.x * m.y.z - m.y.x * m.x.z) * m.w.w)) * rn) + m.w.w * (((m.y.x * m.z.z - m.z.x * m.y.z) * m.x.w + (m.z.x * m.x.z - m.x.x * m.z.z) * m.y.w + (m.x.x * m.y.z - m.y.x * m.x.z) * m.z.w) * rn));
    assert(m4_vec_mul(m, m4_adjugate(m).y).w == 0);
    assert(m4_mul(m, inv).y.w == 0);
    assert(m4_mul(m, inv).y.w * 1 == 0 * m4_mul(m, inv).y.d);
    assert(m4_mul(m, inv).y.d == m.x.d * ((m.x.d * m.z.d * m.w.d) * rd));
    assert(m4_det(m).d * rd == m4_mul(m, inv).y.d);
    assert(m4_mul(m, inv).y.y * 1 == 1 * m4_mul(m, inv).y.d);
    assert(v4_sim(m4_mul(m, inv).y, m4_identity().y));
    assert(m4_mul(m, inv).z.x == m.x.x * (((m.z.x * m.w.y - m.w.x * m.z.y) * m.y.w + (m.w.x * m.y.y - m.y.x * m.w.y) * m.z.w + (m.y.x * m.z.y - m.z.x * m.y.y) * m.w.w) * rn) + m.y.x * ((-((m.z.x * m.w.y - m.w.x * m.z.y) * m.x.w + (m.w.x * m.x.y - m.x.x * m.w.y) * m.z.w + (m.x.x * m.z.y - m.z.x * m.x.y) * m.w.w)) * rn) + m.z.x * (((m.y.x * m.w.y - m.w.x * m.y.y) * m.x.w + (m.w.x * m.x.y - m.x.x * m.w.y) * m.y.w + (m.x.x * m.y.y - m.y.x * m.x.y) * m.w.w) * rn) + m.w.x * ((-((m.y.x * m.z.y - m.z.x * m.y.y) * m.x.w + (m.z.x * m.x.y - m.x.x * m.z.y) * m.y.w + (m.x.x * m.y.y - m.y.x * m.x.y) * m.z.w)) * rn));
    assert(m4_vec_mul(m, m4_adjugate(m).z).x == 0);
    assert(m4_mul(m, inv).z.x == 0);
    assert(m4_mul(m, inv).z.x * 1 == 0 * m4_mul(m, inv).z.d);
    assert(m4_mul(m, inv).z.y == m.x.y * (((m.z.x * m.w.y - m.w.x * m.z.y) * m.y.w + (m.w.x * m.y.y - m.y.x * m.w.y) * m.z.w + (m.y.x * m.z.y - m.z.x * m.y.y) * m.w.w) * rn) + m.y.y * ((-((m.z.x * m.w.y - m.w.x * m.z.y) * m.x.w + (m.w.x * m.x.y - m.x.x * m.w.y) * m.z.w + (m.x.x * m.z.y - m.z.x * m.x.y) * m.w.w)) * rn) + m.z.y * (((m.y.x * m.w.y - m.w.x * m.y.y) * m.x.w + (m.w.x * m.x.y - m.x.x * m.w.y) * m.y.w + (m.x.x * m.y.y - m.y.x * m.x.y) * m.w.w) * rn) + m.w.y * ((-((m.y.x * m.z.y - m.z.x * m.y.y) * m.x.w + (m.z.x * m.x.y - m.x.x * m.z.y) * m.y.w + (m.x.x * m.y.y - m.y.x * m.x.y) * m.z.w)) * rn));
    assert(m4_vec_mul(m, m4_adjugate(m).z).y == 0);
    assert(m4_mul(m, inv).z.y == 0);
    assert(m4_mul(m, inv).z.y * 1 == 0 * m4_mul(m, inv).z.d);
    assert(m4_mul(m, inv).z.z == m.x.z * (((m.z.x * m.w.y - m.w.x * m.z.y) * m.y.w + (m.w.x * m.y.y - m.y.x * m.w.y) * m.z.w + (m.y.x * m.z.y - m.z.x * m.y.y) * m.w.w) * rn) + m.y.z * ((-((m.z.x * m.w.y - m.w.x * m.z.y) * m.x.w + (m.w.x * m.x.y - m.x.x * m.w.y) * m.z.w + (m.x.x * m.z.y - m.z.x * m.x.y) * m.w.w)) * rn) + m.z.z * (((m.y.x * m.w.y - m.w.x * m.y.y) * m.x.w + (m.w.x * m.x.y - m.x.x * m.w.y) * m.y.w + (m.x.x * m.y.y - m.y.x * m.x.y) * m.w.w) * rn) + m.w.z * ((-((m.y.x * m.z.y - m.z.x * m.y.y) * m.x.w + (m.z.x * m.x.y - m.x.x * m.z.y) * m.y.w + (m.x.x * m.y.y - m.y.x * m.x.y) * m.z.w)) * rn));
    assert(m4_mul(m, inv).z.z == m4_det(m).n * rn);
    assert(m4_mul(m, inv).z.w == m.x.w * (((m.z.x * m.w.y - m.w.x * m.z.y) * m.y.w + (m.w.x * m.y.y - m.y.x * m.w.y) * m.z.w + (m.y.x * m.z.y - m.z.x * m.y.y) * m.w.w) * rn) + m.y.w * ((-((m.z.x * m.w.y - m.w.x * m.z.y) * m.x.w + (m.w.x * m.x.y - m.x.x * m.w.y) * m.z.w + (m.x.x * m.z.y - m.z.x * m.x.y) * m.w.w)) * rn) + m.z.w * (((m.y.x * m.w.y - m.w.x * m.y.y) * m.x.w + (m.w.x * m.x.y - m.x.x * m.w.y) * m.y.w + (m.x.x * m.y.y - m.y.x * m.x.y) * m.w.w) * rn) + m.w.w * ((-((m.y.x * m.z.y - m.z.x * m.y.y) * m.x.w + (m.z.x * m.x.y - m.x.x * m.z.y) * m.y.w + (m.x.x * m.y.y - m.y.x * m.x.y) * m.z.w)) * rn));
    assert(m4_vec_mul(m, m4_adjugate(m).z).w == 0);
    assert(m4_mul(m, inv).z.w == 0);
    assert(m4_mul(m, inv).z.w * 1 == 0 * m4_mul(m, inv).z.d);
    assert(m4_mul(m, inv).z.d == m.x.d * ((m.x.d * m.y.d * m.w.d) * rd));
    assert(m4_det(m).d * rd == m4_mul(m, inv).z.d);
    assert(m4_mul(m, inv).z.z * 1 == 1 * m4_mul(m, inv).z.d);
    assert(v4_sim(m4_mul(m, inv).z, m4_identity().z));
    assert(m4_mul(m, inv).w.x == m.x.x * ((-((m.z.x * m.w.y - m.w.x * m.z.y) * m.y.z + (m.w.x * m.y.y - m.y.x * m.w.y) * m.z.z + (m.y.x * m.z.y - m.z.x * m.y.y) * m.w.z)) * rn) + m.y.x * (((m.z.x * m.w.y - m.w.x * m.z.y) * m.x.z + (m.w.x * m.x.y - m.x.x * m.w.y) * m.z.z + (m.x.x * m.z.y - m.z.x * m.x.y) * m.w.z) * rn) + m.z.x * ((-((m.y.x * m.w.y - m.w.x * m.y.y) * m.x.z + (m.w.x * m.x.y - m.x.x * m.w.y) * m.y.z + (m.x.x * m.y.y - m.y.x * m.x.y) * m.w.z)) * rn) + m.w.x * (((m.y.x * m.z.y - m.z.x * m.y.y) * m.x.z + (m.z.x * m.x.y - m.x.x * m.z.y) * m.y.z + (m.x.x * m.y.y - m.y.x * m.x.y) * m.z.z) * rn));
    assert(m4_vec_mul(m, m4_adjugate(m).w).x == 0);
    assert(m4_mul(m, inv).w.x == 0);
    assert(m4_mul(m, inv).w.x * 1 == 0 * m4_mul(m, inv).w.d);
    assert(m4_mul(m, inv).w.y == m.x.y * ((-((m.z.x * m.w.y - m.w.x * m.z.y) * m.y.z + (m.w.x * m.y.y - m.y.x * m.w.y) * m.z.z + (m.y.x * m.z.y - m.z.x * m.y.y) * m.w.z)) * rn) + m.y.y * (((m.z.x * m.w.y - m.w.x * m.z.y) * m.x.z + (m.w.x * m.x.y - m.x.x * m.w.y) * m.z.z + (m.x.x * m.z.y - m.z.x * m.x.y) * m.w.z) * rn) + m.z.y * ((-((m.y.x * m.w.y - m.w.x * m.y.y) * m.x.z + (m.w.x * m.x.y - m.x.x * m.w.y) * m.y.z + (m.x.x * m.y.y - m.y.x * m.x.y) * m.w.z)) * rn) + m.w.y * (((m.y.x * m.z.y - m.z.x * m.y.y) * m.x.z + (m.z.x * m.x.y - m.x.x * m.z.y) * m.y.z + (m.x.x * m.y.y - m.y.x * m.x.y) * m.z.z) * rn));
    assert(m4_vec_mul(m, m4_adjugate(m).w).y == 0);
    assert(m4_mul(m, inv).w.y == 0);
    assert(m4_mul(m, inv).w.y * 1 == 0 * m4_mul(m, inv).w.d);
    assert(m4_mul(m, inv).w.z == m.x.z * ((-((m.z.x * m.w.y - m.w.x * m.z.y) * m.y.z + (m.w.x * m.y.y - m.y.x * m.w.y) * m.z.z + (m.y.x * m.z.y - m.z.x * m.y.y) * m.w.z)) * rn) + m.y.z * (((m.z.x * m.w.y - m.w.x * m.z.y) * m.x.z + (m.w.x * m.x.y - m.x.x * m.w.y) * m.z.z + (m.x.x * m.z.y - m.z.x * m.x.y) * m.w.z) * rn) + m.z.z * ((-((m.y.x * m.w.y - m.w.x * m.y.y) * m.x.z + (m.w.x * m.x.y - m.x.x * m.w.y) * m.y.z + (m.x.x * m.y.y - m.y.x * m.x.y) * m.w.z)) * rn) + m.w.z * (((m.y.x * m.z.y - m.z.x * m.y.y) * m.x.z + (m.z.x * m.x.y - m.x.x * m.z.y) * m.y.z + (m.x.x * m.y.y - m.y.x * m.x.y) * m.z.z) * rn));
    assert(m4_vec_mul(m, m4_adjugate(m).w).z == 0);
    assert(m4_mul(m, inv).w.z == 0);
    assert(m4_mul(m, inv).w.z * 1 == 0 * m4_mul(m, inv).w.d);
    assert(m4_mul(m, inv).w.w == m.x.w * ((-((m.z.x * m.w.y - m.w.x * m.z.y) * m.y.z + (m.w.x * m.y.y - m.y.x * m.w.y) * m.z.z + (m.y.x * m.z.y - m.z.x * m.y.y) * m.w.z)) * rn) + m.y.w * (((m.z.x * m.w.y - m.w.x * m.z.y) * m.x.z + (m.w.x * m.x.y - m.x.x * m.w.y) * m.z.z + (m.x.x * m.z.y - m.z.x * m.x.y) * m.w.z) * rn) + m.z.w * ((-((m.y.x * m.w.y - m.w.x * m.y.y) * m.x.z + (m.w.x * m.x.y - m.x.x * m.w.y) * m.y.z + (m.x.x * m.y.y - m.y.x * m.x.y) * m.w.z)) * rn) + m.w.w * (((m.y.x * m.z.y - m.z.x * m.y.y) * m.x.z + (m.z.x * m.x.y - m.x.x * m.z.y) * m.y.z + (m.x.x * m.y.y - m.y.x * m.x.y) * m.z.z) * rn));
    assert(m4_mul(m, inv).w.w == m4_det(m).n * rn);
    assert(m4_mul(m, inv).w.d == m.x.d * ((m.x.d * m.y.d * m.z.d) * rd));
    assert(m4_det(m).d * rd == m4_mul(m, inv).w.d);
    assert(m4_mul(m, inv).w.w * 1 == 1 * m4_mul(m, inv).w.d);
    assert(v4_sim(m4_mul(m, inv).w, m4_identity().w));
    assert(m4_sim(m4_mul(m, inv), m4_identity()));
    assert(m4_inverse(m) == Some(inv));
}

/// Transposing twice gives back the matrix.
pub proof fn lemma_transpose_involution_4(m: M4)
    ensures
        m4_transpose(m4_transpose(m)) == m,
{
}

proof fn singular4_case_x_y(m: M4)
    requires
        m.x == m.y,
    ensures
        m4_det(m).n == 0,
{
    let g0: int = (0 - m.w.y * m.z.z) + m.w.z * m.z.y;
    let g1: int = (0 - m.w.y * m.x.w * m.z.z) + m.w.z * m.x.w * m.z.y;
    let g2: int = m.w.y * m.x.z - m.w.z * m.x.y;
    let g3: int = m.w.y * m.x.z * m.z.w - m.w.z * m.x.y * m.z.w;
    let g4: int = (0 - m.w.y * m.x.w * m.z.z) + m.w.y * m.x.z * m.z.w;
    let g5: int = g4 + m.w.z * m.x.w * m.z.y;
    let g6: int = g5 - m.w.z * m.x.y * m.z.w;
    let g7: int = m.x.y * m.z.z - m.x.z * m.z.y;
    let g8: int = m.w.w * m.x.y * m.z.z - m.w.w * m.x.z * m.z.y;
    let g9: int = g8 - m.w.y * m.x.w * m.z.z;
    let g10: int = g9 + m.w.y * m.x.z * m.z.w;
    let g11: int = g10 + m.w.z * m.x.w * m.z.y;
    let g12: int = g11 - m.w.z * m.x.y * m.z.w;
    let g13: int = m.w.w * m.x.x * m.x.y * m.z.z - m.w.w * m.x.x * m.x.z * m.z.y;
    let g14: int = g13 - m.w.y * m.x.w * m.x.x * m.z.z;
    let g15: int = g14 + m.w.y * m.x.x * m.x.z * m.z.w;
    let g16: int = g15 + m.w.z * m.x.w * m.x.x * m.z.y;
    let g17: int = g16 - m.w.z * m.x.x * m.x.y * m.z.w;
    let g18: int = (0 - m.w.y * m.x.z) + m.w.z * m.x.y;
    let g19: int = (0 - m.w.y * m.x.w * m.x.z) + m.w.z * m.x.w * m.x.y;
    let g20: int = m.w.y * m.x.w * m.x.z - m.w.z * m.x.w * m.x.y;
    let g21: int = m.x.w * m.x.y * m.z.z - m.x.w * m.x.z * m.z.y;
    let g22: int = (0 - m.x.y * m.z.z) + m.x.z * m.z.y;
    let g23: int = (0 - m.x.w * m.x.y * m.z.z) + m.x.w * m.x.z * m.z.y;
    assert(m.z.y * m.w.z == m.w.z * m.z.y
        && ((0 - m.w.y * m.z.z) + m.w.z * m.z.y) * (m.x.w) == (0 - m.w.y * m.z.z) * (m.x.w) + (m.w.z * m.z.y) * (m.x.w)
        && ((0 - m.w.y * m.z.z)) * (m.x.w) == (0 - m.w.y * m.x.w * m.z.z)
        && (m.w.z * m.z.y) * m.x.w == m.w.z * m.x.w * m.z.y
    ) by (nonlinear_arith);
    assert(m.x.y * m.w.z == m.w.z * m.x.y
        && (m.w.y * m.x.z - m.w.z * m.x.y) * (m.z.w) == m.w.y * m.x.z * (m.z.w) - (m.w.z * m.x.y) * (m.z.w)
        && m.z.y * m.x.z == m.x.z * m.z.y
        && (m.x.y * m.z.z - m.x.z * m.z.y) * (m.w.w) == m.x.y * m.z.z * (m.w.w) - (m.x.z * m.z.y) * (m.w.w)
    ) by (nonlinear_arith);
    assert((m.x.y * m.z.z) * m.w.w == m.w.w * m.x.y * m.z.z
        && (m.x.z * m.z.y) * m.w.w == m.w.w * m.x.z * m.z.y
        && (m.x.x) * (g11 - m.w.z * m.x.y * m.z.w) == (m.x.x) * (g11) - (m.x.x) * (m.w.z * m.x.y * m.z.w)
    ) by (nonlinear_arith);
    assert((m.x.x) * (g10 + m.w.z * m.x.w * m.z.y) == (m.x.x) * (g10) + (m.x.x) * (m.w.z * m.x.w * m.z.y)
        && (m.x.x) * (g9 + m.w.y * m.x.z * m.z.w) == (m.x.x) * (g9) + (m.x.x) * (m.w.y * m.x.z * m.z.w)
    ) by (nonlinear_arith);
    assert((m.x.x) * (g8 - m.w.y * m.x.w * m.z.z) == (m.x.x) * (g8) - (m.x.x) * (m.w.y * m.x.w * m.z.z)
        && (m.x.x) * (m.w.w * m.x.y * m.z.z - m.w.w * m.x.z * m.z.y) == (m.x.x) * (m.w.w * m.x.y * m.z.z) - (m.x.x) * (m.w.w * m.x.z * m.z.y)
    ) by (nonlinear_arith);
    assert(m.x.x * (m.w.w * m.x.y * m.z.z) == m.w.w * m.x.x * m.x.y * m.z.z
        && m.x.x * (m.w.w * m.x.z * m.z.y) == m.w.w * m.x.x * m.x.z * m.z.y
        && m.x.x * (m.w.y * m.x.w * m.z.z) == m.w.y * m.x.w * m.x.x * m.z.z
    ) by (nonlinear_arith);
    assert(m.x.x * (m.w.y * m.x.z * m.z.w) == m.w.y * m.x.x * m.x.z * m.z.w
        && m.x.x * (m.w.z * m.x.w * m.z.y) == m.w.z * m.x.w * m.x.x * m.z.y
        && m.x.x * (m.w.z * m.x.y * m.z.w) == m.w.z * m.x.x * m.x.y * m.z.w
    ) by (nonlinear_arith);
    assert(((0 - m.w.y * m.x.z) + m.w.z * m.x.y) * (m.x.w) == (0 - m.w.y * m.x.z) * (m.x.w) + (m.w.z * m.x.y) * (m.x.w)
        && ((0 - m.w.y * m.x.z)) * (m.x.w) == (0 - m.w.y * m.x.w * m.x.z)
        && (m.w.z * m.x.y) * m.x.w == m.w.z * m.x.w * m.x.y
    ) by (nonlinear_arith);
    assert((m.w.y * m.x.z - m.w.z * m.x.y) * (m.x.w) == m.w.y * m.x.z * (m.x.w) - (m.w.z * m.x.y) * (m.x.w)
        && (m.w.y * m.x.z) * m.x.w == m.w.y * m.x.w * m.x.z
        && (m.x.y * m.z.z - m.x.z * m.z.y) * (m.x.w) == m.x.y * m.z.z * (m.x.w) - (m.x.z * m.z.y) * (m.x.w)
    ) by (nonlinear_arith);
    assert((m.x.y * m.z.z) * m.x.w == m.x.w * m.x.y * m.z.z
        && (m.x.z * m.z.y) * m.x.w == m.x.w * m.x.z * m.z.y
        && ((0 - m.x.y * m.z.z) + m.x.z * m.z.y) * (m.x.w) == (0 - m.x.y * m.z.z) * (m.x.w) + (m.x.z * m.z.y) * (m.x.w)
    ) by (nonlinear_arith);
    assert(((0 - m.x.y * m.z.z)) * (m.x.w) == (0 - m.x.w * m.x.y * m.z.z)) by (nonlinear_arith);
    assert(m.x.x * ((m.z.y * m.w.z - m.w.y * m.z.z) * m.y.w + (m.w.y * m.y.z - m.y.y * m.w.z) * m.z.w + (m.y.y * m.z.z - m.z.y * m.y.z) * m.w.w) - m.y.x * ((m.z.y * m.w.z - m.w.y * m.z.z) * m.x.w + (m.w.y * m.x.z - m.x.y * m.w.z) * m.z.w + (m.x.y * m.z.z - m.z.y * m.x.z) * m.w.w) + m.z.x * ((m.y.y * m.w.z - m.w.y * m.y.z) * m.x.w + (m.w.y * m.x.z - m.x.y * m.w.z) * m.y.w + (m.x.y * m.y.z - m.y.y * m.x.z) * m.w.w) - m.w.x * ((m.y.y * m.z.z - m.z.y * m.y.z) * m.x.w + (m.z.y * m.x.z - m.x.y * m.z.z) * m.y.w + (m.x.y * m.y.z - m.y.y * m.x.z) * m.z.w) == m.x.x * ((m.z.y * m.w.z - m.w.y * m.z.z) * m.x.w + (m.w.y * m.x.z - m.x.y * m.w.z) * m.z.w + (m.x.y * m.z.z - m.z.y * m.x.z) * m.w.w) - m.x.x * ((m.z.y * m.w.z - m.w.y * m.z.z) * m.x.w + (m.w.y * m.x.z - m.x.y * m.w.z) * m.z.w + (m.x.y * m.z.z - m.z.y * m.x.z) * m.w.w) + m.z.x * ((m.x.y * m.w.z - m.w.y * m.x.z) * m.x.w + (m.w.y * m.x.z - m.x.y * m.w.z) * m.x.w + (m.x.y * m.x.z - m.x.y * m.x.z) * m.w.w) - m.w.x * ((m.x.y * m.z.z - m.z.y * m.x.z) * m.x.w + (m.z.y * m.x.z - m.x.y * m.z.z) * m.x.w + (m.x.y * m.x.z - m.x.y * m.x.z) * m.z.w));
    assert((m.z.y) * (m.w.z) == m.w.z * m.z.y);
    assert((m.w.y) * (m.z.z) == m.w.y * m.z.z);
    assert((m.w.z * m.z.y) - (m.w.y * m.z.z) == g0);
    assert((g0) * (m.x.w) == g1);
    assert((g0) * (m.x.w) == g1);
    assert((m.w.y) * (m.x.z) == m.w.y * m.x.z);
    assert((m.x.y) * (m.w.z) == m.w.z * m.x.y);
    assert((m.w.y * m.x.z) - (m.w.z * m.x.y) == g2);
    assert((g2) * (m.z.w) == g3);
    assert((g2) * (m.z.w) == g3);
    assert((g1) + (g3) == g6);
    assert((m.x.y) * (m.z.z) == m.x.y * m.z.z);
    assert((m.z.y) * (m.x.z) == m.x.z * m.z.y);
    assert((m.x.y * m.z.z) - (m.x.z * m.z.y) == g7);
    assert((g7) * (m.w.w) == g8);
    assert((g7) * (m.w.w) == g8);
    assert((g6) + (g8) == g12);
    assert((m.x.x) * (g8) == g13);
    assert((m.x.x) * (g9) == g14);
    assert((m.x.x) * (g10) == g15);
    assert((m.x.x) * (g11) == g16);
    assert((m.x.x) * (g12) == g17);
    assert((m.x.x) * (g12) == g17);
    assert((m.z.y) * (m.w.z) == m.w.z * m.z.y);
    assert((m.w.y) * (m.z.z) == m.w.y * m.z.z);
    assert((m.w.z * m.z.y) - (m.w.y * m.z.z) == g0);
    assert((g0) * (m.x.w) == g1);
    assert((m.w.y) * (m.x.z) == m.w.y * m.x.z);
    assert((m.x.y) * (m.w.z) == m.w.z * m.x.y);
    assert((m.w.y * m.x.z) - (m.w.z * m.x.y) == g2);
    assert((g2) * (m.z.w) == g3);
    assert((g1) + (g3) == g6);
    assert((m.x.y) * (m.z.z) == m.x.y * m.z.z);
    assert((m.z.y) * (m.x.z) == m.x.z * m.z.y);
    assert((m.x.y * m.z.z) - (m.x.z * m.z.y) == g7);
    assert((g7) * (m.w.w) == g8);
    assert((g6) + (g8) == g12);
    assert((m.x.x) * (g12) == g17);
    assert((g17) - (g17) == 0);
    assert((m.x.y) * (m.w.z) == m.w.z * m.x.y);
    assert((m.w.y) * (m.x.z) == m.w.y * m.x.z);
    assert((m.w.z * m.x.y) - (m.w.y * m.x.z) == g18);
    assert((g18) * (m.x.w) == g19);
    assert((g18) * (m.x.w) == g19);
    assert((m.w.y) * (m.x.z) == m.w.y * m.x.z);
    assert((m.x.y) * (m.w.z) == m.w.z * m.x.y);
    assert((m.w.y * m.x.z) - (m.w.z * m.x.y) == g2);
    assert((g2) * (m.x.w) == g20);
    assert((g2) * (m.x.w) == g20);
    assert((g19) + (g20) == 0);
    assert((m.x.y) * (m.x.z) == m.x.y * m.x.z);
    assert((m.x.y) * (m.x.z) == m.x.y * m.x.z);
    assert((m.x.y * m.x.z) - (m.x.y * m.x.z) == 0);
    assert((0) * (m.w.w) == 0);
    assert((0) + (0) == 0);
    assert((m.z.x) * (0) == 0);
    assert((0) + (0) == 0);
    assert((m.x.y) * (m.z.z) == m.x.y * m.z.z);
    assert((m.z.y) * (m.x.z) == m.x.z * m.z.y);
    assert((m.x.y * m.z.z) - (m.x.z * m.z.y) == g7);
    assert((g7) * (m.x.w) == g21);
    assert((g7) * (m.x.w) == g21);
    assert((m.z.y) * (m.x.z) == m.x.z * m.z.y);
    assert((m.x.y) * (m.z.z) == m.x.y * m.z.z);
    assert((m.x.z * m.z.y) - (m.x.y * m.z.z) == g22);
    assert((g22) * (m.x.w) == g23);
    assert((g22) * (m.x.w) == g23);
    assert((g21) + (g23) == 0);
    assert((m.x.y) * (m.x.z) == m.x.y * m.x.z);
    assert((m.x.y) * (m.x.z) == m.x.y * m.x.z);
    assert((m.x.y * m.x.z) - (m.x.y * m.x.z) == 0);
    assert((0) * (m.z.w) == 0);
    assert((0) + (0) == 0);
    assert((m.w.x) * (0) == 0);
    assert((0) - (0) == 0);
}

proof fn singular4_case_x_z(m: M4)
    requires
        m.x == m.z,
    ensures
        m4_det(m).n == 0,
{
    let g0: int = (0 - m.w.y * m.x.z) + m.w.z * m.x.y;
    let g1: int = (0 - m.w.y * m.x.z * m.y.w) + m.w.z * m.x.y * m.y.w;
    let g2: int = m.w.y * m.y.z - m.w.z * m.y.y;
    let g3: int = m.w.y * m.x.w * m.y.z - m.w.z * m.x.w * m.y.y;
    let g4: int = m.w.y * m.x.w * m.y.z - m.w.y * m.x.z * m.y.w;
    let g5: int = g4 - m.w.z * m.x.w * m.y.y;
    let g6: int = g5 + m.w.z * m.x.y * m.y.w;
    let g7: int = (0 - m.x.y * m.y.z) + m.x.z * m.y.y;
    let g8: int = (0 - m.w.w * m.x.y * m.y.z) + m.w.w * m.x.z * m.y.y;
    let g9: int = g8 + m.w.y * m.x.w * m.y.z;
    let g10: int = g9 - m.w.y * m.x.z * m.y.w;
    let g11: int = g10 - m.w.z * m.x.w * m.y.y;
    let g12: int = g11 + m.w.z * m.x.y * m.y.w;
    let g13: int = (0 - m.w.w * m.x.x * m.x.y * m.y.z) + m.w.w * m.x.x * m.x.z * m.y.y;
    let g14: int = g13 + m.w.y * m.x.w * m.x.x * m.y.z;
    let g15: int = g14 - m.w.y * m.x.x * m.x.z * m.y.w;
    let g16: int = g15 - m.w.z * m.x.w * m.x.x * m.y.y;
    let g17: int = g16 + m.w.z * m.x.x * m.x.y * m.y.w;
    let g18: int = (0 - m.w.y * m.x.w * m.x.z) + m.w.z * m.x.w * m.x.y;
    let g19: int = m.w.y * m.x.z - m.w.z * m.x.y;
    let g20: int = m.w.y * m.x.w * m.x.z - m.w.z * m.x.w * m.x.y;
    let g21: int = (0 - m.w.y * m.y.z) + m.w.z * m.y.y;
    let g22: int = (0 - m.w.y * m.x.w * m.y.z) + m.w.z * m.x.w * m.y.y;
    let g23: int = m.w.y * m.x.z * m.y.w - m.w.z * m.x.y * m.y.w;
    let g24: int = (0 - m.w.y * m.x.w * m.y.z) + m.w.y * m.x.z * m.y.w;
    let g25: int = g24 + m.w.z * m.x.w * m.y.y;
    let g26: int = g25 - m.w.z * m.x.y * m.y.w;
    let g27: int = m.x.y * m.y.z - m.x.z * m.y.y;
    let g28: int = m.w.w * m.x.y * m.y.z - m.w.w * m.x.z * m.y.y;
    let g29: int = g28 - m.w.y * m.x.w * m.y.z;
    let g30: int = g29 + m.w.y * m.x.z * m.y.w;
    let g31: int = g30 + m.w.z * m.x.w * m.y.y;
    let g32: int = g31 - m.w.z * m.x.y * m.y.w;
    let g33: int = m.w.w * m.x.x * m.x.y * m.y.z - m.w.w * m.x.x * m.x.z * m.y.y;
    let g34: int = g33 - m.w.y * m.x.w * m.x.x * m.y.z;
    let g35: int = g34 + m.w.y * m.x.x * m.x.z * m.y.w;
    let g36: int = g35 + m.w.z * m.x.w * m.x.x * m.y.y;
    let g37: int = g36 - m.w.z * m.x.x * m.x.y * m.y.w;
    let g38: int = (0 - m.x.w * m.x.y * m.y.z) + m.x.w * m.x.z * m.y.y;
    let g39: int = m.x.w * m.x.y * m.y.z - m.x.w * m.x.z * m.y.y;
    assert(m.x.y * m.w.z == m.w.z * m.x.y
        && ((0 - m.w.y * m.x.z) + m.w.z * m.x.y) * (m.y.w) == (0 - m.w.y * m.x.z) * (m.y.w) + (m.w.z * m.x.y) * (m.y.w)
        && ((0 - m.w.y * m.x.z)) * (m.y.w) == (0 - m.w.y * m.x.z * m.y.w)
        && m.y.y * m.w.z == m.w.z * m.y.y
    ) by (nonlinear_arith);
    assert((m.w.y * m.y.z - m.w.z * m.y.y) * (m.x.w) == m.w.y * m.y.z * (m.x.w) - (m.w.z * m.y.y) * (m.x.w)
        && (m.w.y * m.y.z) * m.x.w == m.w.y * m.x.w * m.y.z
        && (m.w.z * m.y.y) * m.x.w == m.w.z * m.x.w * m.y.y
        && m.y.y * m.x.z == m.x.z * m.y.y
    ) by (nonlinear_arith);
    assert(((0 - m.x.y * m.y.z) + m.x.z * m.y.y) * (m.w.w) == (0 - m.x.y * m.y.z) * (m.w.w) + (m.x.z * m.y.y) * (m.w.w)
        && ((0 - m.x.y * m.y.z)) * (m.w.w) == (0 - m.w.w * m.x.y * m.y.z)
        && (m.x.z * m.y.y) * m.w.w == m.w.w * m.x.z * m.y.y
    ) by (nonlinear_arith);
    assert((m.x.x) * (g11 + m.w.z * m.x.y * m.y.w) == (m.x.x) * (g11) + (m.x.x) * (m.w.z * m.x.y * m.y.w)
        && (m.x.x) * (g10 - m.w.z * m.x.w * m.y.y) == (m.x.x) * (g10) - (m.x.x) * (m.w.z * m.x.w * m.y.y)
    ) by (nonlinear_arith);
    assert((m.x.x) * (g9 - m.w.y * m.x.z * m.y.w) == (m.x.x) * (g9) - (m.x.x) * (m.w.y * m.x.z * m.y.w)
        && (m.x.x) * (g8 + m.w.y * m.x.w * m.y.z) == (m.x.x) * (g8) + (m.x.x) * (m.w.y * m.x.w * m.y.z)
    ) by (nonlinear_arith);
    assert((m.x.x) * ((0 - m.w.w * m.x.y * m.y.z) + m.w.w * m.x.z * m.y.y) == (m.x.x) * ((0 - m.w.w * m.x.y * m.y.z)) + (m.x.x) * (m.w.w * m.x.z * m.y.y)
        && (m.x.x) * ((0 - m.w.w * m.x.y * m.y.z)) == (0 - m.w.w * m.x.x * m.x.y * m.y.z)
    ) by (nonlinear_arith);
    assert(m.x.x * (m.w.w * m.x.z * m.y.y) == m.w.w * m.x.x * m.x.z * m.y.y
        && m.x.x * (m.w.y * m.x.w * m.y.z) == m.w.y * m.x.w * m.x.x * m.y.z
        && m.x.x * (m.w.y * m.x.z * m.y.w) == m.w.y * m.x.x * m.x.z * m.y.w
    ) by (nonlinear_arith);
    assert(m.x.x * (m.w.z * m.x.w * m.y.y) == m.w.z * m.x.w * m.x.x * m.y.y
        && m.x.x * (m.w.z * m.x.y * m.y.w) == m.w.z * m.x.x * m.x.y * m.y.w
    ) by (nonlinear_arith);
    assert(((0 - m.w.y * m.x.z) + m.w.z * m.x.y) * (m.x.w) == (0 - m.w.y * m.x.z) * (m.x.w) + (m.w.z * m.x.y) * (m.x.w)
        && ((0 - m.w.y * m.x.z)) * (m.x.w) == (0 - m.w.y * m.x.w * m.x.z)
        && (m.w.z * m.x.y) * m.x.w == m.w.z * m.x.w * m.x.y
    ) by (nonlinear_arith);
    assert((m.w.y * m.x.z - m.w.z * m.x.y) * (m.x.w) == m.w.y * m.x.z * (m.x.w) - (m.w.z * m.x.y) * (m.x.w)
        && (m.w.y * m.x.z) * m.x.w == m.w.y * m.x.w * m.x.z
        && ((0 - m.w.y * m.y.z) + m.w.z * m.y.y) * (m.x.w) == (0 - m.w.y * m.y.z) * (m.x.w) + (m.w.z * m.y.y) * (m.x.w)
    ) by (nonlinear_arith);
    assert(((0 - m.w.y * m.y.z)) * (m.x.w) == (0 - m.w.y * m.x.w * m.y.z)
        && (m.w.y * m.x.z - m.w.z * m.x.y) * (m.y.w) == m.w.y * m.x.z * (m.y.w) - (m.w.z * m.x.y) * (m.y.w)
        && (m.x.y * m.y.z - m.x.z * m.y.y) * (m.w.w) == m.x.y * m.y.z * (m.w.w) - (m.x.z * m.y.y) * (m.w.w)
    ) by (nonlinear_arith);
    assert((m.x.y * m.y.z) * m.w.w == m.w.w * m.x.y * m.y.z
        && (m.x.x) * (g31 - m.w.z * m.x.y * m.y.w) == (m.x.x) * (g31) - (m.x.x) * (m.w.z * m.x.y * m.y.w)
        && (m.x.x) * (g30 + m.w.z * m.x.w * m.y.y) == (m.x.x) * (g30) + (m.x.x) * (m.w.z * m.x.w * m.y.y)
    ) by (nonlinear_arith);
    assert((m.x.x) * (g29 + m.w.y * m.x.z * m.y.w) == (m.x.x) * (g29) + (m.x.x) * (m.w.y * m.x.z * m.y.w)
        && (m.x.x) * (g28 - m.w.y * m.x.w * m.y.z) == (m.x.x) * (g28) - (m.x.x) * (m.w.y * m.x.w * m.y.z)
    ) by (nonlinear_arith);
    assert((m.x.x) * (m.w.w * m.x.y * m.y.z - m.w.w * m.x.z * m.y.y) == (m.x.x) * (m.w.w * m.x.y * m.y.z) - (m.x.x) * (m.w.w * m.x.z * m.y.y)
        && m.x.x * (m.w.w * m.x.y * m.y.z) == m.w.w * m.x.x * m.x.y * m.y.z
    ) by (nonlinear_arith);
    assert(((0 - m.x.y * m.y.z) + m.x.z * m.y.y) * (m.x.w) == (0 - m.x.y * m.y.z) * (m.x.w) + (m.x.z * m.y.y) * (m.x.w)
        && ((0 - m.x.y * m.y.z)) * (m.x.w) == (0 - m.x.w * m.x.y * m.y.z)
        && (m.x.z * m.y.y) * m.x.w == m.x.w * m.x.z * m.y.y
    ) by (nonlinear_arith);
    assert((m.x.y * m.y.z - m.x.z * m.y.y) * (m.x.w) == m.x.y * m.y.z * (m.x.w) - (m.x.z * m.y.y) * (m.x.w)
        && (m.x.y * m.y.z) * m.x.w == m.x.w * m.x.y * m.y.z
    ) by (nonlinear_arith);
    assert(m.x.x * ((m.z.y * m.w.z - m.w.y * m.z.z) * m.y.w + (m.w.y * m.y.z - m.y.y * m.w.z) * m.z.w + (m.y.y * m.z.z - m.z.y * m.y.z) * m.w.w) - m.y.x * ((m.z.y * m.w.z - m.w.y * m.z.z) * m.x.w + (m.w.y * m.x.z - m.x.y * m.w.z) * m.z.w + (m.x.y * m.z.z - m.z.y * m.x.z) * m.w.w) + m.z.x * ((m.y.y * m.w.z - m.w.y * m.y.z) * m.x.w + (m.w.y * m.x.z - m.x.y * m.w.z) * m.y.w + (m.x.y * m.y.z - m.y.y * m.x.z) * m.w.w) - m.w.x * ((m.y.y * m.z.z - m.z.y * m.y.z) * m.x.w + (m.z.y * m.x.z - m.x.y * m.z.z) * m.y.w + (m.x.y * m.y.z - m.y.y * m.x.z) * m.z.w) == m.x.x * ((m.x.y * m.w.z - m.w.y * m.x.z) * m.y.w + (m.w.y * m.y.z - m.y.y * m.w.z) * m.x.w + (m.y.y * m.x.z - m.x.y * m.y.z) * m.w.w) - m.y.x * ((m.x.y * m.w.z - m.w.y * m.x.z) * m.x.w + (m.w.y * m.x.z - m.x.y * m.w.z) * m.x.w + (m.x.y * m.x.z - m.x.y * m.x.z) * m.w.w) + m.x.x * ((m.y.y * m.w.z - m.w.y * m.y.z) * m.x.w + (m.w.y * m.x.z - m.x.y * m.w.z) * m.y.w + (m.x.y * m.y.z - m.y.y * m.x.z) * m.w.w) - m.w.x * ((m.y.y * m.x.z - m.x.y * m.y.z) * m.x.w + (m.x.y * m.x.z - m.x.y * m.x.z) * m.y.w + (m.x.y * m.y.z - m.y.y * m.x.z) * m.x.w));
    assert((m.x.y) * (m.w.z) == m.w.z * m.x.y);
    assert((m.w.y) * (m.x.z) == m.w.y * m.x.z);
    assert((m.w.z * m.x.y) - (m.w.y * m.x.z) == g0);
    assert((g0) * (m.y.w) == g1);
    assert((g0) * (m.y.w) == g1);
    assert((m.w.y) * (m.y.z) == m.w.y * m.y.z);
    assert((m.y.y) * (m.w.z) == m.w.z * m.y.y);
    assert((m.w.y * m.y.z) - (m.w.z * m.y.y) == g2);
    assert((g2) * (m.x.w) == g3);
    assert((g2) * (m.x.w) == g3);
    assert((g1) + (g3) == g6);
    assert((m.y.y) * (m.x.z) == m.x.z * m.y.y);
    assert((m.x.y) * (m.y.z) == m.x.y * m.y.z);
    assert((m.x.z * m.y.y) - (m.x.y * m.y.z) == g7);
    assert((g7) * (m.w.w) == g8);
    assert((g7) * (m.w.w) == g8);
    assert((g6) + (g8) == g12);
    assert((m.x.x) * (g8) == g13);
    assert((m.x.x) * (g9) == g14);
    assert((m.x.x) * (g10) == g15);
    assert((m.x.x) * (g11) == g16);
    assert((m.x.x) * (g12) == g17);
    assert((m.x.x) * (g12) == g17);
    assert((m.x.y) * (m.w.z) == m.w.z * m.x.y);
    assert((m.w.y) * (m.x.z) == m.w.y * m.x.z);
    assert((m.w.z * m.x.y) - (m.w.y * m.x.z) == g0);
    assert((g0) * (m.x.w) == g18);
    assert((g0) * (m.x.w) == g18);
    assert((m.w.y) * (m.x.z) == m.w.y * m.x.z);
    assert((m.x.y) * (m.w.z) == m.w.z * m.x.y);
    assert((m.w.y * m.x.z) - (m.w.z * m.x.y) == g19);
    assert((g19) * (m.x.w) == g20);
    assert((g19) * (m.x.w) == g20);
    assert((g18) + (g20) == 0);
    assert((m.x.y) * (m.x.z) == m.x.y * m.x.z);
    assert((m.x.y) * (m.x.z) == m.x.y * m.x.z);
    assert((m.x.y * m.x.z) - (m.x.y * m.x.z) == 0);
    assert((0) * (m.w.w) == 0);
    assert((0) + (0) == 0);
    assert((m.y.x) * (0) == 0);
    assert((g17) - (0) == g17);
    assert((m.y.y) * (m.w.z) == m.w.z * m.y.y);
    assert((m.w.y) * (m.y.z) == m.w.y * m.y.z);
    assert((m.w.z * m.y.y) - (m.w.y * m.y.z) == g21);
    assert((g21) * (m.x.w) == g22);
    assert((g21) * (m.x.w) == g22);
    assert((m.w.y) * (m.x.z) == m.w.y * m.x.z);
    assert((m.x.y) * (m.w.z) == m.w.z * m.x.y);
    assert((m.w.y * m.x.z) - (m.w.z * m.x.y) == g19);
    assert((g19) * (m.y.w) == g23);
    assert((g19) * (m.y.w) == g23);
    assert((g22) + (g23) == g26);
    assert((m.x.y) * (m.y.z) == m.x.y * m.y.z);
    assert((m.y.y) * (m.x.z) == m.x.z * m.y.y);
    assert((m.x.y * m.y.z) - (m.x.z * m.y.y) == g27);
    assert((g27) * (m.w.w) == g28);
    assert((g27) * (m.w.w) == g28);
    assert((g26) + (g28) == g32);
    assert((m.x.x) * (g28) == g33);
    assert((m.x.x) * (g29) == g34);
    assert((m.x.x) * (g30) == g35);
    assert((m.x.x) * (g31) == g36);
    assert((m.x.x) * (g32) == g37);
    assert((m.x.x) * (g32) == g37);
    assert((g17) + (g37) == 0);
    assert((m.y.y) * (m.x.z) == m.x.z * m.y.y);
    assert((m.x.y) * (m.y.z) == m.x.y * m.y.z);
    assert((m.x.z * m.y.y) - (m.x.y * m.y.z) == g7);
    assert((g7) * (m.x.w) == g38);
    assert((g7) * (m.x.w) == g38);
    assert((m.x.y) * (m.x.z) == m.x.y * m.x.z);
    assert((m.x.y) * (m.x.z) == m.x.y * m.x.z);
    assert((m.x.y * m.x.z) - (m.x.y * m.x.z) == 0);
    assert((0) * (m.y.w) == 0);
    assert((g38) + (0) == g38);
    assert((m.x.y) * (m.y.z) == m.x.y * m.y.z);
    assert((m.y.y) * (m.x.z) == m.x.z * m.y.y);
    assert((m.x.y * m.y.z) - (m.x.z * m.y.y) == g27);
    assert((g27) * (m.x.w) == g39);
    assert((g27) * (m.x.w) == g39);
    assert((g38) + (g39) == 0);
    assert((m.w.x) * (0) == 0);
    assert((0) - (0) == 0);
}

proof fn singular4_case_x_w(m: M4)
    requires
        m.x == m.w,
    ensures
        m4_det(m).n == 0,
{
    let g0: int = (0 - m.x.y * m.z.z) + m.x.z * m.z.y;
    let g1: int = (0 - m.x.y * m.y.w * m.z.z) + m.x.z * m.y.w * m.z.y;
    let g2: int = m.x.y * m.y.z - m.x.z * m.y.y;
    let g3: int = m.x.y * m.y.z * m.z.w - m.x.z * m.y.y * m.z.w;
    let g4: int = (0 - m.x.y * m.y.w * m.z.z) + m.x.y * m.y.z * m.z.w;
    let g5: int = g4 + m.x.z * m.y.w * m.z.y;
    let g6: int = g5 - m.x.z * m.y.y * m.z.w;
    let g7: int = m.y.y * m.z.z - m.y.z * m.z.y;
    let g8: int = m.x.w * m.y.y * m.z.z - m.x.w * m.y.z * m.z.y;
    let g9: int = g8 - m.x.y * m.y.w * m.z.z;
    let g10: int = g9 + m.x.y * m.y.z * m.z.w;
    let g11: int = g10 + m.x.z * m.y.w * m.z.y;
    let g12: int = g11 - m.x.z * m.y.y * m.z.w;
    let g13: int = m.x.w * m.x.x * m.y.y * m.z.z - m.x.w * m.x.x * m.y.z * m.z.y;
    let g14: int = g13 - m.x.x * m.x.y * m.y.w * m.z.z;
    let g15: int = g14 + m.x.x * m.x.y * m.y.z * m.z.w;
    let g16: int = g15 + m.x.x * m.x.z * m.y.w * m.z.y;
    let g17: int = g16 - m.x.x * m.x.z * m.y.y * m.z.w;
    let g18: int = (0 - m.x.w * m.x.y * m.z.z) + m.x.w * m.x.z * m.z.y;
    let g19: int = m.x.y * m.z.z - m.x.z * m.z.y;
    let g20: int = m.x.w * m.x.y * m.z.z - m.x.w * m.x.z * m.z.y;
    let g21: int = (0 - m.x.y * m.y.z) + m.x.z * m.y.y;
    let g22: int = (0 - m.x.w * m.x.y * m.y.z) + m.x.w * m.x.z * m.y.y;
    let g23: int = m.x.w * m.x.y * m.y.z - m.x.w * m.x.z * m.y.y;
    let g24: int = g9 + m.x.z * m.y.w * m.z.y;
    assert(m.z.y * m.x.z == m.x.z * m.z.y
        && ((0 - m.x.y * m.z.z) + m.x.z * m.z.y) * (m.y.w) == (0 - m.x.y * m.z.z) * (m.y.w) + (m.x.z * m.z.y) * (m.y.w)
        && ((0 - m.x.y * m.z.z)) * (m.y.w) == (0 - m.x.y * m.y.w * m.z.z)
        && (m.x.z * m.z.y) * m.y.w == m.x.z * m.y.w * m.z.y
    ) by (nonlinear_arith);
    assert(m.y.y * m.x.z == m.x.z * m.y.y
        && (m.x.y * m.y.z - m.x.z * m.y.y) * (m.z.w) == m.x.y * m.y.z * (m.z.w) - (m.x.z * m.y.y) * (m.z.w)
        && m.z.y * m.y.z == m.y.z * m.z.y
        && (m.y.y * m.z.z - m.y.z * m.z.y) * (m.x.w) == m.y.y * m.z.z * (m.x.w) - (m.y.z * m.z.y) * (m.x.w)
    ) by (nonlinear_arith);
    assert((m.y.y * m.z.z) * m.x.w == m.x.w * m.y.y * m.z.z
        && (m.y.z * m.z.y) * m.x.w == m.x.w * m.y.z * m.z.y
        && (m.x.x) * (g11 - m.x.z * m.y.y * m.z.w) == (m.x.x) * (g11) - (m.x.x) * (m.x.z * m.y.y * m.z.w)
    ) by (nonlinear_arith);
    assert((m.x.x) * (g10 + m.x.z * m.y.w * m.z.y) == (m.x.x) * (g10) + (m.x.x) * (m.x.z * m.y.w * m.z.y)
        && (m.x.x) * (g9 + m.x.y * m.y.z * m.z.w) == (m.x.x) * (g9) + (m.x.x) * (m.x.y * m.y.z * m.z.w)
    ) by (nonlinear_arith);
    assert((m.x.x) * (g8 - m.x.y * m.y.w * m.z.z) == (m.x.x) * (g8) - (m.x.x) * (m.x.y * m.y.w * m.z.z)
        && (m.x.x) * (m.x.w * m.y.y * m.z.z - m.x.w * m.y.z * m.z.y) == (m.x.x) * (m.x.w * m.y.y * m.z.z) - (m.x.x) * (m.x.w * m.y.z * m.z.y)
    ) by (nonlinear_arith);
    assert(m.x.x * (m.x.w * m.y.y * m.z.z) == m.x.w * m.x.x * m.y.y * m.z.z
        && m.x.x * (m.x.w * m.y.z * m.z.y) == m.x.w * m.x.x * m.y.z * m.z.y
        && m.x.x * (m.x.y * m.y.w * m.z.z) == m.x.x * m.x.y * m.y.w * m.z.z
    ) by (nonlinear_arith);
    assert(m.x.x * (m.x.y * m.y.z * m.z.w) == m.x.x * m.x.y * m.y.z * m.z.w
        && m.x.x * (m.x.z * m.y.w * m.z.y) == m.x.x * m.x.z * m.y.w * m.z.y
        && m.x.x * (m.x.z * m.y.y * m.z.w) == m.x.x * m.x.z * m.y.y * m.z.w
    ) by (nonlinear_arith);
    assert(((0 - m.x.y * m.z.z) + m.x.z * m.z.y) * (m.x.w) == (0 - m.x.y * m.z.z) * (m.x.w) + (m.x.z * m.z.y) * (m.x.w)
        && ((0 - m.x.y * m.z.z)) * (m.x.w) == (0 - m.x.w * m.x.y * m.z.z)
        && (m.x.z * m.z.y) * m.x.w == m.x.w * m.x.z * m.z.y
    ) by (nonlinear_arith);
    assert((m.x.y * m.z.z - m.x.z * m.z.y) * (m.x.w) == m.x.y * m.z.z * (m.x.w) - (m.x.z * m.z.y) * (m.x.w)
        && (m.x.y * m.z.z) * m.x.w == m.x.w * m.x.y * m.z.z
        && ((0 - m.x.y * m.y.z) + m.x.z * m.y.y) * (m.x.w) == (0 - m.x.y * m.y.z) * (m.x.w) + (m.x.z * m.y.y) * (m.x.w)
    ) by (nonlinear_arith);
    assert(((0 - m.x.y * m.y.z)) * (m.x.w) == (0 - m.x.w * m.x.y * m.y.z)
        && (m.x.z * m.y.y) * m.x.w == m.x.w * m.x.z * m.y.y
        && (m.x.y * m.y.z - m.x.z * m.y.y) * (m.x.w) == m.x.y * m.y.z * (m.x.w) - (m.x.z * m.y.y) * (m.x.w)
    ) by (nonlinear_arith);
    assert((m.x.y * m.y.z) * m.x.w == m.x.w * m.x.y * m.y.z) by (nonlinear_arith);
    assert(m.x.x * ((m.z.y * m.w.z - m.w.y * m.z.z) * m.y.w + (m.w.y * m.y.z - m.y.y * m.w.z) * m.z.w + (m.y.y * m.z.z - m.z.y * m.y.z) * m.w.w) - m.y.x * ((m.z.y * m.w.z - m.w.y * m.z.z) * m.x.w + (m.w.y * m.x.z - m.x.y * m.w.z) * m.z.w + (m.x.y * m.z.z - m.z.y * m.x.z) * m.w.w) + m.z.x * ((m.y.y * m.w.z - m.w.y * m.y.z) * m.x.w + (m.w.y * m.x.z - m.x.y * m.w.z) * m.y.w + (m.x.y * m.y.z - m.y.y * m.x.z) * m.w.w) - m.w.x * ((m.y.y * m.z.z - m.z.y * m.y.z) * m.x.w + (m.z.y * m.x.z - m.x.y * m.z.z) * m.y.w + (m.x.y * m.y.z - m.y.y * m.x.z) * m.z.w) == m.x.x * ((m.z.y * m.x.z - m.x.y * m.z.z) * m.y.w + (m.x.y * m.y.z - m.y.y * m.x.z) * m.z.w + (m.y.y * m.z.z - m.z.y * m.y.z) * m.x.w) - m.y.x * ((m.z.y * m.x.z - m.x.y * m.z.z) * m.x.w + (m.x.y * m.x.z - m.x.y * m.x.z) * m.z.w + (m.x.y * m.z.z - m.z.y * m.x.z) * m.x.w) + m.z.x * ((m.y.y * m.x.z - m.x.y * m.y.z) * m.x.w + (m.x.y * m.x.z - m.x.y * m.x.z) * m.y.w + (m.x.y * m.y.z - m.y.y * m.x.z) * m.x.w) - m.x.x * ((m.y.y * m.z.z - m.z.y * m.y.z) * m.x.w + (m.z.y * m.x.z - m.x.y * m.z.z) * m.y.w + (m.x.y * m.y.z - m.y.y * m.x.z) * m.z.w));
    assert((m.z.y) * (m.x.z) == m.x.z * m.z.y);
    assert((m.x.y) * (m.z.z) == m.x.y * m.z.z);
    assert((m.x.z * m.z.y) - (m.x.y * m.z.z) == g0);
    assert((g0) * (m.y.w) == g1);
    assert((g0) * (m.y.w) == g1);
    assert((m.x.y) * (m.y.z) == m.x.y * m.y.z);
    assert((m.y.y) * (m.x.z) == m.x.z * m.y.y);
    assert((m.x.y * m.y.z) - (m.x.z * m.y.y) == g2);
    assert((g2) * (m.z.w) == g3);
    assert((g2) * (m.z.w) == g3);
    assert((g1) + (g3) == g6);
    assert((m.y.y) * (m.z.z) == m.y.y * m.z.z);
    assert((m.z.y) * (m.y.z) == m.y.z * m.z.y);
    assert((m.y.y * m.z.z) - (m.y.z * m.z.y) == g7);
    assert((g7) * (m.x.w) == g8);
    assert((g7) * (m.x.w) == g8);
    assert((g6) + (g8) == g12);
    assert((m.x.x) * (g8) == g13);
    assert((m.x.x) * (g9) == g14);
    assert((m.x.x) * (g10) == g15);
    assert((m.x.x) * (g11) == g16);
    assert((m.x.x) * (g12) == g17);
    assert((m.x.x) * (g12) == g17);
    assert((m.z.y) * (m.x.z) == m.x.z * m.z.y);
    assert((m.x.y) * (m.z.z) == m.x.y * m.z.z);
    assert((m.x.z * m.z.y) - (m.x.y * m.z.z) == g0);
    assert((g0) * (m.x.w) == g18);
    assert((g0) * (m.x.w) == g18);
    assert((m.x.y) * (m.x.z) == m.x.y * m.x.z);
    assert((m.x.y) * (m.x.z) == m.x.y * m.x.z);
    assert((m.x.y * m.x.z) - (m.x.y * m.x.z) == 0);
    assert((0) * (m.z.w) == 0);
    assert((g18) + (0) == g18);
    assert((m.x.y) * (m.z.z) == m.x.y * m.z.z);
    assert((m.z.y) * (m.x.z) == m.x.z * m.z.y);
    assert((m.x.y * m.z.z) - (m.x.z * m.z.y) == g19);
    assert((g19) * (m.x.w) == g20);
    assert((g19) * (m.x.w) == g20);
    assert((g18) + (g20) == 0);
    assert((m.y.x) * (0) == 0);
    assert((g17) - (0) == g17);
    assert((m.y.y) * (m.x.z) == m.x.z * m.y.y);
    assert((m.x.y) * (m.y.z) == m.x.y * m.y.z);
    assert((m.x.z * m.y.y) - (m.x.y * m.y.z) == g21);
    assert((g21) * (m.x.w) == g22);
    assert((g21) * (m.x.w) == g22);
    assert((m.x.y) * (m.x.z) == m.x.y * m.x.z);
    assert((m.x.y) * (m.x.z) == m.x.y * m.x.z);
    assert((m.x.y * m.x.z) - (m.x.y * m.x.z) == 0);
    assert((0) * (m.y.w) == 0);
    assert((g22) + (0) == g22);
    assert((m.x.y) * (m.y.z) == m.x.y * m.y.z);
    assert((m.y.y) * (m.x.z) == m.x.z * m.y.y);
    assert((m.x.y * m.y.z) - (m.x.z * m.y.y) == g2);
    assert((g2) * (m.x.w) == g23);
    assert((g2) * (m.x.w) == g23);
    assert((g22) + (g23) == 0);
    assert((m.z.x) * (0) == 0);
    assert((g17) + (0) == g17);
    assert((m.y.y) * (m.z.z) == m.y.y * m.z.z);
    assert((m.z.y) * (m.y.z) == m.y.z * m.z.y);
    assert((m.y.y * m.z.z) - (m.y.z * m.z.y) == g7);
    assert((g7) * (m.x.w) == g8);
    assert((m.z.y) * (m.x.z) == m.x.z * m.z.y);
    assert((m.x.y) * (m.z.z) == m.x.y * m.z.z);
    assert((m.x.z * m.z.y) - (m.x.y * m.z.z) == g0);
    assert((g0) * (m.y.w) == g1);
    assert((g8) + (g1) == g24);
    assert((m.x.y) * (m.y.z) == m.x.y * m.y.z);
    assert((m.y.y) * (m.x.z) == m.x.z * m.y.y);
    assert((m.x.y * m.y.z) - (m.x.z * m.y.y) == g2);
    assert((g2) * (m.z.w) == g3);
    assert((g24) + (g3) == g12);
    assert((m.x.x) * (g12) == g17);
    assert((g17) - (g17) == 0);
}

proof fn singular4_case_y_z(m: M4)
    requires
        m.y == m.z,
    ensures
        m4_det(m).n == 0,
{
    let g0: int = (0 - m.w.y * m.y.z) + m.w.z * m.y.y;
    let g1: int = (0 - m.w.y * m.y.w * m.y.z) + m.w.z * m.y.w * m.y.y;
    let g2: int = m.w.y * m.y.z - m.w.z * m.y.y;
    let g3: int = m.w.y * m.y.w * m.y.z - m.w.z * m.y.w * m.y.y;
    let g4: int = (0 - m.w.y * m.x.w * m.y.z) + m.w.z * m.x.w * m.y.y;
    let g5: int = m.w.y * m.x.z - m.w.z * m.x.y;
    let g6: int = m.w.y * m.x.z * m.y.w - m.w.z * m.x.y * m.y.w;
    let g7: int = (0 - m.w.y * m.x.w * m.y.z) + m.w.y * m.x.z * m.y.w;
    let g8: int = g7 + m.w.z * m.x.w * m.y.y;
    let g9: int = g8 - m.w.z * m.x.y * m.y.w;
    let g10: int = m.x.y * m.y.z - m.x.z * m.y.y;
    let g11: int = m.w.w * m.x.y * m.y.z - m.w.w * m.x.z * m.y.y;
    let g12: int = g11 - m.w.y * m.x.w * m.y.z;
    let g13: int = g12 + m.w.y * m.x.z * m.y.w;
    let g14: int = g13 + m.w.z * m.x.w * m.y.y;
    let g15: int = g14 - m.w.z * m.x.y * m.y.w;
    let g16: int = m.w.w * m.x.y * m.y.x * m.y.z - m.w.w * m.x.z * m.y.x * m.y.y;
    let g17: int = g16 - m.w.y * m.x.w * m.y.x * m.y.z;
    let g18: int = g17 + m.w.y * m.x.z * m.y.w * m.y.x;
    let g19: int = g18 + m.w.z * m.x.w * m.y.x * m.y.y;
    let g20: int = g19 - m.w.z * m.x.y * m.y.w * m.y.x;
    let g21: int = (0 - m.w.w * m.x.y * m.y.x * m.y.z) + m.w.w * m.x.z * m.y.x * m.y.y;
    let g22: int = g21 + m.w.y * m.x.w * m.y.x * m.y.z;
    let g23: int = g22 - m.w.y * m.x.z * m.y.w * m.y.x;
    let g24: int = g23 - m.w.z * m.x.w * m.y.x * m.y.y;
    let g25: int = g24 + m.w.z * m.x.y * m.y.w * m.y.x;
    let g26: int = (0 - m.x.y * m.y.z) + m.x.z * m.y.y;
    let g27: int = (0 - m.x.y * m.y.w * m.y.z) + m.x.z * m.y.w * m.y.y;
    let g28: int = m.x.y * m.y.w * m.y.z - m.x.z * m.y.w * m.y.y;
    assert(m.y.y * m.w.z == m.w.z * m.y.y
        && ((0 - m.w.y * m.y.z) + m.w.z * m.y.y) * (m.y.w) == (0 - m.w.y * m.y.z) * (m.y.w) + (m.w.z * m.y.y) * (m.y.w)
        && ((0 - m.w.y * m.y.z)) * (m.y.w) == (0 - m.w.y * m.y.w * m.y.z)
        && (m.w.z * m.y.y) * m.y.w == m.w.z * m.y.w * m.y.y
    ) by (nonlinear_arith);
    assert((m.w.y * m.y.z - m.w.z * m.y.y) * (m.y.w) == m.w.y * m.y.z * (m.y.w) - (m.w.z * m.y.y) * (m.y.w)
        && (m.w.y * m.y.z) * m.y.w == m.w.y * m.y.w * m.y.z
        && ((0 - m.w.y * m.y.z) + m.w.z * m.y.y) * (m.x.w) == (0 - m.w.y * m.y.z) * (m.x.w) + (m.w.z * m.y.y) * (m.x.w)
    ) by (nonlinear_arith);
    assert(((0 - m.w.y * m.y.z)) * (m.x.w) == (0 - m.w.y * m.x.w * m.y.z)
        && (m.w.z * m.y.y) * m.x.w == m.w.z * m.x.w * m.y.y
        && m.x.y * m.w.z == m.w.z * m.x.y
        && (m.w.y * m.x.z - m.w.z * m.x.y) * (m.y.w) == m.w.y * m.x.z * (m.y.w) - (m.w.z * m.x.y) * (m.y.w)
    ) by (nonlinear_arith);
    assert(m.y.y * m.x.z == m.x.z * m.y.y
        && (m.x.y * m.y.z - m.x.z * m.y.y) * (m.w.w) == m.x.y * m.y.z * (m.w.w) - (m.x.z * m.y.y) * (m.w.w)
        && (m.x.y * m.y.z) * m.w.w == m.w.w * m.x.y * m.y.z
        && (m.x.z * m.y.y) * m.w.w == m.w.w * m.x.z * m.y.y
    ) by (nonlinear_arith);
    assert((m.y.x) * (g14 - m.w.z * m.x.y * m.y.w) == (m.y.x) * (g14) - (m.y.x) * (m.w.z * m.x.y * m.y.w)
        && (m.y.x) * (g13 + m.w.z * m.x.w * m.y.y) == (m.y.x) * (g13) + (m.y.x) * (m.w.z * m.x.w * m.y.y)
    ) by (nonlinear_arith);
    assert((m.y.x) * (g12 + m.w.y * m.x.z * m.y.w) == (m.y.x) * (g12) + (m.y.x) * (m.w.y * m.x.z * m.y.w)
        && (m.y.x) * (g11 - m.w.y * m.x.w * m.y.z) == (m.y.x) * (g11) - (m.y.x) * (m.w.y * m.x.w * m.y.z)
    ) by (nonlinear_arith);
    assert((m.y.x) * (m.w.w * m.x.y * m.y.z - m.w.w * m.x.z * m.y.y) == (m.y.x) * (m.w.w * m.x.y * m.y.z) - (m.y.x) * (m.w.w * m.x.z * m.y.y)
        && m.y.x * (m.w.w * m.x.y * m.y.z) == m.w.w * m.x.y * m.y.x * m.y.z
    ) by (nonlinear_arith);
    assert(m.y.x * (m.w.w * m.x.z * m.y.y) == m.w.w * m.x.z * m.y.x * m.y.y
        && m.y.x * (m.w.y * m.x.w * m.y.z) == m.w.y * m.x.w * m.y.x * m.y.z
        && m.y.x * (m.w.y * m.x.z * m.y.w) == m.w.y * m.x.z * m.y.w * m.y.x
    ) by (nonlinear_arith);
    assert(m.y.x * (m.w.z * m.x.w * m.y.y) == m.w.z * m.x.w * m.y.x * m.y.y
        && m.y.x * (m.w.z * m.x.y * m.y.w) == m.w.z * m.x.y * m.y.w * m.y.x
    ) by (nonlinear_arith);
    assert(((0 - m.x.y * m.y.z) + m.x.z * m.y.y) * (m.y.w) == (0 - m.x.y * m.y.z) * (m.y.w) + (m.x.z * m.y.y) * (m.y.w)
        && ((0 - m.x.y * m.y.z)) * (m.y.w) == (0 - m.x.y * m.y.w * m.y.z)
        && (m.x.z * m.y.y) * m.y.w == m.x.z * m.y.w * m.y.y
    ) by (nonlinear_arith);
    assert((m.x.y * m.y.z - m.x.z * m.y.y) * (m.y.w) == m.x.y * m.y.z * (m.y.w) - (m.x.z * m.y.y) * (m.y.w)
        && (m.x.y * m.y.z) * m.y.w == m.x.y * m.y.w * m.y.z
    ) by (nonlinear_arith);
    assert(m.x.x * ((m.z.y * m.w.z - m.w.y * m.z.z) * m.y.w + (m.w.y * m.y.z - m.y.y * m.w.z) * m.z.w + (m.y.y * m.z.z - m.z.y * m.y.z) * m.w.w) - m.y.x * ((m.z.y * m.w.z - m.w.y * m.z.z) * m.x.w + (m.w.y * m.x.z - m.x.y * m.w.z) * m.z.w + (m.x.y * m.z.z - m.z.y * m.x.z) * m.w.w) + m.z.x * ((m.y.y * m.w.z - m.w.y * m.y.z) * m.x.w + (m.w.y * m.x.z - m.x.y * m.w.z) * m.y.w + (m.x.y * m.y.z - m.y.y * m.x.z) * m.w.w) - m.w.x * ((m.y.y * m.z.z - m.z.y * m.y.z) * m.x.w + (m.z.y * m.x.z - m.x.y * m.z.z) * m.y.w + (m.x.y * m.y.z - m.y.y * m.x.z) * m.z.w) == m.x.x * ((m.y.y * m.w.z - m.w.y * m.y.z) * m.y.w + (m.w.y * m.y.z - m.y.y * m.w.z) * m.y.w + (m.y.y * m.y.z - m.y.y * m.y.z) * m.w.w) - m.y.x * ((m.y.y * m.w.z - m.w.y * m.y.z) * m.x.w + (m.w.y * m.x.z - m.x.y * m.w.z) * m.y.w + (m.x.y * m.y.z - m.y.y * m.x.z) * m.w.w) + m.y.x * ((m.y.y * m.w.z - m.w.y * m.y.z) * m.x.w + (m.w.y * m.x.z - m.x.y * m.w.z) * m.y.w + (m.x.y * m.y.z - m.y.y * m.x.z) * m.w.w) - m.w.x * ((m.y.y * m.y.z - m.y.y * m.y.z) * m.x.w + (m.y.y * m.x.z - m.x.y * m.y.z) * m.y.w + (m.x.y * m.y.z - m.y.y * m.x.z) * m.y.w));
    assert((m.y.y) * (m.w.z) == m.w.z * m.y.y);
    assert((m.w.y) * (m.y.z) == m.w.y * m.y.z);
    assert((m.w.z * m.y.y) - (m.w.y * m.y.z) == g0);
    assert((g0) * (m.y.w) == g1);
    assert((g0) * (m.y.w) == g1);
    assert((m.w.y) * (m.y.z) == m.w.y * m.y.z);
    assert((m.y.y) * (m.w.z) == m.w.z * m.y.y);
    assert((m.w.y * m.y.z) - (m.w.z * m.y.y) == g2);
    assert((g2) * (m.y.w) == g3);
    assert((g2) * (m.y.w) == g3);
    assert((g1) + (g3) == 0);
    assert((m.y.y) * (m.y.z) == m.y.y * m.y.z);
    assert((m.y.y) * (m.y.z) == m.y.y * m.y.z);
    assert((m.y.y * m.y.z) - (m.y.y * m.y.z) == 0);
    assert((0) * (m.w.w) == 0);
    assert((0) + (0) == 0);
    assert((m.x.x) * (0) == 0);
    assert((m.y.y) * (m.w.z) == m.w.z * m.y.y);
    assert((m.w.y) * (m.y.z) == m.w.y * m.y.z);
    assert((m.w.z * m.y.y) - (m.w.y * m.y.z) == g0);
    assert((g0) * (m.x.w) == g4);
    assert((g0) * (m.x.w) == g4);
    assert((m.w.y) * (m.x.z) == m.w.y * m.x.z);
    assert((m.x.y) * (m.w.z) == m.w.z * m.x.y);
    assert((m.w.y * m.x.z) - (m.w.z * m.x.y) == g5);
    assert((g5) * (m.y.w) == g6);
    assert((g5) * (m.y.w) == g6);
    assert((g4) + (g6) == g9);
    assert((m.x.y) * (m.y.z) == m.x.y * m.y.z);
    assert((m.y.y) * (m.x.z) == m.x.z * m.y.y);
    assert((m.x.y * m.y.z) - (m.x.z * m.y.y) == g10);
    assert((g10) * (m.w.w) == g11);
    assert((g10) * (m.w.w) == g11);
    assert((g9) + (g11) == g15);
    assert((m.y.x) * (g11) == g16);
    assert((m.y.x) * (g12) == g17);
    assert((m.y.x) * (g13) == g18);
    assert((m.y.x) * (g14) == g19);
    assert((m.y.x) * (g15) == g20);
    assert((m.y.x) * (g15) == g20);
    assert((0) - (g20) == g25);
    assert((m.y.y) * (m.w.z) == m.w.z * m.y.y);
    assert((m.w.y) * (m.y.z) == m.w.y * m.y.z);
    assert((m.w.z * m.y.y) - (m.w.y * m.y.z) == g0);
    assert((g0) * (m.x.w) == g4);
    assert((m.w.y) * (m.x.z) == m.w.y * m.x.z);
    assert((m.x.y) * (m.w.z) == m.w.z * m.x.y);
    assert((m.w.y * m.x.z) - (m.w.z * m.x.y) == g5);
    assert((g5) * (m.y.w) == g6);
    assert((g4) + (g6) == g9);
    assert((m.x.y) * (m.y.z) == m.x.y * m.y.z);
    assert((m.y.y) * (m.x.z) == m.x.z * m.y.y);
    assert((m.x.y * m.y.z) - (m.x.z * m.y.y) == g10);
    assert((g10) * (m.w.w) == g11);
    assert((g9) + (g11) == g15);
    assert((m.y.x) * (g15) == g20);
    assert((g25) + (g20) == 0);
    assert((m.y.y) * (m.y.z) == m.y.y * m.y.z);
    assert((m.y.y) * (m.y.z) == m.y.y * m.y.z);
    assert((m.y.y * m.y.z) - (m.y.y * m.y.z) == 0);
    assert((0) * (m.x.w) == 0);
    assert((m.y.y) * (m.x.z) == m.x.z * m.y.y);
    assert((m.x.y) * (m.y.z) == m.x.y * m.y.z);
    assert((m.x.z * m.y.y) - (m.x.y * m.y.z) == g26);
    assert((g26) * (m.y.w) == g27);
    assert((g26) * (m.y.w) == g27);
    assert((0) + (g27) == g27);
    assert((m.x.y) * (m.y.z) == m.x.y * m.y.z);
    assert((m.y.y) * (m.x.z) == m.x.z * m.y.y);
    assert((m.x.y * m.y.z) - (m.x.z * m.y.y) == g10);
    assert((g10) * (m.y.w) == g28);
    assert((g10) * (m.y.w) == g28);
    assert((g27) + (g28) == 0);
    assert((m.w.x) * (0) == 0);
    assert((0) - (0) == 0);
}

proof fn singular4_case_y_w(m: M4)
    requires
        m.y == m.w,
    ensures
        m4_det(m).n == 0,
{
    let g0: int = (0 - m.y.y * m.z.z) + m.y.z * m.z.y;
    let g1: int = (0 - m.y.w * m.y.y * m.z.z) + m.y.w * m.y.z * m.z.y;
    let g2: int = m.y.y * m.z.z - m.y.z * m.z.y;
    let g3: int = m.y.w * m.y.y * m.z.z - m.y.w * m.y.z * m.z.y;
    let g4: int = (0 - m.x.w * m.y.y * m.z.z) + m.x.w * m.y.z * m.z.y;
    let g5: int = (0 - m.x.y * m.y.z) + m.x.z * m.y.y;
    let g6: int = (0 - m.x.y * m.y.z * m.z.w) + m.x.z * m.y.y * m.z.w;
    let g7: int = g4 - m.x.y * m.y.z * m.z.w;
    let g8: int = g7 + m.x.z * m.y.y * m.z.w;
    let g9: int = m.x.y * m.z.z - m.x.z * m.z.y;
    let g10: int = m.x.y * m.y.w * m.z.z - m.x.z * m.y.w * m.z.y;
    let g11: int = g4 + m.x.y * m.y.w * m.z.z;
    let g12: int = g11 - m.x.y * m.y.z * m.z.w;
    let g13: int = g12 - m.x.z * m.y.w * m.z.y;
    let g14: int = g13 + m.x.z * m.y.y * m.z.w;
    let g15: int = (0 - m.x.w * m.y.x * m.y.y * m.z.z) + m.x.w * m.y.x * m.y.z * m.z.y;
    let g16: int = g15 + m.x.y * m.y.w * m.y.x * m.z.z;
    let g17: int = g16 - m.x.y * m.y.x * m.y.z * m.z.w;
    let g18: int = g17 - m.x.z * m.y.w * m.y.x * m.z.y;
    let g19: int = g18 + m.x.z * m.y.x * m.y.y * m.z.w;
    let g20: int = m.x.w * m.y.x * m.y.y * m.z.z - m.x.w * m.y.x * m.y.z * m.z.y;
    let g21: int = g20 - m.x.y * m.y.w * m.y.x * m.z.z;
    let g22: int = g21 + m.x.y * m.y.x * m.y.z * m.z.w;
    let g23: int = g22 + m.x.z * m.y.w * m.y.x * m.z.y;
    let g24: int = g23 - m.x.z * m.y.x * m.y.y * m.z.w;
    let g25: int = (0 - m.x.y * m.y.w * m.y.z) + m.x.z * m.y.w * m.y.y;
    let g26: int = m.x.y * m.y.z - m.x.z * m.y.y;
    let g27: int = m.x.y * m.y.w * m.y.z - m.x.z * m.y.w * m.y.y;
    let g28: int = m.x.w * m.y.y * m.z.z - m.x.w * m.y.z * m.z.y;
    let g29: int = (0 - m.x.y * m.z.z) + m.x.z * m.z.y;
    let g30: int = (0 - m.x.y * m.y.w * m.z.z) + m.x.z * m.y.w * m.z.y;
    let g31: int = g28 - m.x.y * m.y.w * m.z.z;
    let g32: int = g31 + m.x.z * m.y.w * m.z.y;
    let g33: int = m.x.y * m.y.z * m.z.w - m.x.z * m.y.y * m.z.w;
    let g34: int = g31 + m.x.y * m.y.z * m.z.w;
    let g35: int = g34 + m.x.z * m.y.w * m.z.y;
    let g36: int = g35 - m.x.z * m.y.y * m.z.w;
    assert(m.z.y * m.y.z == m.y.z * m.z.y
        && ((0 - m.y.y * m.z.z) + m.y.z * m.z.y) * (m.y.w) == (0 - m.y.y * m.z.z) * (m.y.w) + (m.y.z * m.z.y) * (m.y.w)
        && ((0 - m.y.y * m.z.z)) * (m.y.w) == (0 - m.y.w * m.y.y * m.z.z)
        && (m.y.z * m.z.y) * m.y.w == m.y.w * m.y.z * m.z.y
    ) by (nonlinear_arith);
    assert((m.y.y * m.z.z - m.y.z * m.z.y) * (m.y.w) == m.y.y * m.z.z * (m.y.w) - (m.y.z * m.z.y) * (m.y.w)
        && (m.y.y * m.z.z) * m.y.w == m.y.w * m.y.y * m.z.z
        && ((0 - m.y.y * m.z.z) + m.y.z * m.z.y) * (m.x.w) == (0 - m.y.y * m.z.z) * (m.x.w) + (m.y.z * m.z.y) * (m.x.w)
    ) by (nonlinear_arith);
    assert(((0 - m.y.y * m.z.z)) * (m.x.w) == (0 - m.x.w * m.y.y * m.z.z)
        && (m.y.z * m.z.y) * m.x.w == m.x.w * m.y.z * m.z.y
        && m.y.y * m.x.z == m.x.z * m.y.y
        && ((0 - m.x.y * m.y.z) + m.x.z * m.y.y) * (m.z.w) == (0 - m.x.y * m.y.z) * (m.z.w) + (m.x.z * m.y.y) * (m.z.w)
    ) by (nonlinear_arith);
    assert(((0 - m.x.y * m.y.z)) * (m.z.w) == (0 - m.x.y * m.y.z * m.z.w)
        && m.z.y * m.x.z == m.x.z * m.z.y
        && (m.x.y * m.z.z - m.x.z * m.z.y) * (m.y.w) == m.x.y * m.z.z * (m.y.w) - (m.x.z * m.z.y) * (m.y.w)
        && (m.x.y * m.z.z) * m.y.w == m.x.y * m.y.w * m.z.z
    ) by (nonlinear_arith);
    assert((m.x.z * m.z.y) * m.y.w == m.x.z * m.y.w * m.z.y
        && (m.y.x) * (g13 + m.x.z * m.y.y * m.z.w) == (m.y.x) * (g13) + (m.y.x) * (m.x.z * m.y.y * m.z.w)
        && (m.y.x) * (g12 - m.x.z * m.y.w * m.z.y) == (m.y.x) * (g12) - (m.y.x) * (m.x.z * m.y.w * m.z.y)
    ) by (nonlinear_arith);
    assert((m.y.x) * (g11 - m.x.y * m.y.z * m.z.w) == (m.y.x) * (g11) - (m.y.x) * (m.x.y * m.y.z * m.z.w)
        && (m.y.x) * (g4 + m.x.y * m.y.w * m.z.z) == (m.y.x) * (g4) + (m.y.x) * (m.x.y * m.y.w * m.z.z)
    ) by (nonlinear_arith);
    assert((m.y.x) * ((0 - m.x.w * m.y.y * m.z.z) + m.x.w * m.y.z * m.z.y) == (m.y.x) * ((0 - m.x.w * m.y.y * m.z.z)) + (m.y.x) * (m.x.w * m.y.z * m.z.y)
        && (m.y.x) * ((0 - m.x.w * m.y.y * m.z.z)) == (0 - m.x.w * m.y.x * m.y.y * m.z.z)
    ) by (nonlinear_arith);
    assert(m.y.x * (m.x.w * m.y.z * m.z.y) == m.x.w * m.y.x * m.y.z * m.z.y
        && m.y.x * (m.x.y * m.y.w * m.z.z) == m.x.y * m.y.w * m.y.x * m.z.z
        && m.y.x * (m.x.y * m.y.z * m.z.w) == m.x.y * m.y.x * m.y.z * m.z.w
    ) by (nonlinear_arith);
    assert(m.y.x * (m.x.z * m.y.w * m.z.y) == m.x.z * m.y.w * m.y.x * m.z.y
        && m.y.x * (m.x.z * m.y.y * m.z.w) == m.x.z * m.y.x * m.y.y * m.z.w
    ) by (nonlinear_arith);
    assert(((0 - m.x.y * m.y.z) + m.x.z * m.y.y) * (m.y.w) == (0 - m.x.y * m.y.z) * (m.y.w) + (m.x.z * m.y.y) * (m.y.w)
        && ((0 - m.x.y * m.y.z)) * (m.y.w) == (0 - m.x.y * m.y.w * m.y.z)
        && (m.x.z * m.y.y) * m.y.w == m.x.z * m.y.w * m.y.y
    ) by (nonlinear_arith);
    assert((m.x.y * m.y.z - m.x.z * m.y.y) * (m.y.w) == m.x.y * m.y.z * (m.y.w) - (m.x.z * m.y.y) * (m.y.w)
        && (m.x.y * m.y.z) * m.y.w == m.x.y * m.y.w * m.y.z
        && (m.y.y * m.z.z - m.y.z * m.z.y) * (m.x.w) == m.y.y * m.z.z * (m.x.w) - (m.y.z * m.z.y) * (m.x.w)
    ) by (nonlinear_arith);
    assert((m.y.y * m.z.z) * m.x.w == m.x.w * m.y.y * m.z.z
        && ((0 - m.x.y * m.z.z) + m.x.z * m.z.y) * (m.y.w) == (0 - m.x.y * m.z.z) * (m.y.w) + (m.x.z * m.z.y) * (m.y.w)
        && ((0 - m.x.y * m.z.z)) * (m.y.w) == (0 - m.x.y * m.y.w * m.z.z)
    ) by (nonlinear_arith);
    assert((m.x.y * m.y.z - m.x.z * m.y.y) * (m.z.w) == m.x.y * m.y.z * (m.z.w) - (m.x.z * m.y.y) * (m.z.w)
        && (m.y.x) * (g35 - m.x.z * m.y.y * m.z.w) == (m.y.x) * (g35) - (m.y.x) * (m.x.z * m.y.y * m.z.w)
    ) by (nonlinear_arith);
    assert((m.y.x) * (g34 + m.x.z * m.y.w * m.z.y) == (m.y.x) * (g34) + (m.y.x) * (m.x.z * m.y.w * m.z.y)
        && (m.y.x) * (g31 + m.x.y * m.y.z * m.z.w) == (m.y.x) * (g31) + (m.y.x) * (m.x.y * m.y.z * m.z.w)
    ) by (nonlinear_arith);
    assert((m.y.x) * (g28 - m.x.y * m.y.w * m.z.z) == (m.y.x) * (g28) - (m.y.x) * (m.x.y * m.y.w * m.z.z)
        && (m.y.x) * (m.x.w * m.y.y * m.z.z - m.x.w * m.y.z * m.z.y) == (m.y.x) * (m.x.w * m.y.y * m.z.z) - (m.y.x) * (m.x.w * m.y.z * m.z.y)
    ) by (nonlinear_arith);
    assert(m.y.x * (m.x.w * m.y.y * m.z.z) == m.x.w * m.y.x * m.y.y * m.z.z) by (nonlinear_arith);
    assert(m.x.x * ((m.z.y * m.w.z - m.w.y * m.z.z) * m.y.w + (m.w.y * m.y.z - m.y.y * m.w.z) * m.z.w + (m.y.y * m.z.z - m.z.y * m.y.z) * m.w.w) - m.y.x * ((m.z.y * m.w.z - m.w.y * m.z.z) * m.x.w + (m.w.y * m.x.z - m.x.y * m.w.z) * m.z.w + (m.x.y * m.z.z - m.z.y * m.x.z) * m.w.w) + m.z.x * ((m.y.y * m.w.z - m.w.y * m.y.z) * m.x.w + (m.w.y * m.x.z - m.x.y * m.w.z) * m.y.w + (m.x.y * m.y.z - m.y.y * m.x.z) * m.w.w) - m.w.x * ((m.y.y * m.z.z - m.z.y * m.y.z) * m.x.w + (m.z.y * m.x.z - m.x.y * m.z.z) * m.y.w + (m.x.y * m.y.z - m.y.y * m.x.z) * m.z.w) == m.x.x * ((m.z.y * m.y.z - m.y.y * m.z.z) * m.y.w + (m.y.y * m.y.z - m.y.y * m.y.z) * m.z.w + (m.y.y * m.z.z - m.z.y * m.y.z) * m.y.w) - m.y.x * ((m.z.y * m.y.z - m.y.y * m.z.z) * m.x.w + (m.y.y * m.x.z - m.x.y * m.y.z) * m.z.w + (m.x.y * m.z.z - m.z.y * m.x.z) * m.y.w) + m.z.x * ((m.y.y * m.y.z - m.y.y * m.y.z) * m.x.w + (m.y.y * m.x.z - m.x.y * m.y.z) * m.y.w + (m.x.y * m.y.z - m.y.y * m.x.z) * m.y.w) - m.y.x * ((m.y.y * m.z.z - m.z.y * m.y.z) * m.x.w + (m.z.y * m.x.z - m.x.y * m.z.z) * m.y.w + (m.x.y * m.y.z - m.y.y * m.x.z) * m.z.w));
    assert((m.z.y) * (m.y.z) == m.y.z * m.z.y);
    assert((m.y.y) * (m.z.z) == m.y.y * m.z.z);
    assert((m.y.z * m.z.y) - (m.y.y * m.z.z) == g0);
    assert((g0) * (m.y.w) == g1);
    assert((g0) * (m.y.w) == g1);
    assert((m.y.y) * (m.y.z) == m.y.y * m.y.z);
    assert((m.y.y) * (m.y.z) == m.y.y * m.y.z);
    assert((m.y.y * m.y.z) - (m.y.y * m.y.z) == 0);
    assert((0) * (m.z.w) == 0);
    assert((g1) + (0) == g1);
    assert((m.y.y) * (m.z.z) == m.y.y * m.z.z);
    assert((m.z.y) * (m.y.z) == m.y.z * m.z.y);
    assert((m.y.y * m.z.z) - (m.y.z * m.z.y) == g2);
    assert((g2) * (m.y.w) == g3);
    assert((g2) * (m.y.w) == g3);
    assert((g1) + (g3) == 0);
    assert((m.x.x) * (0) == 0);
    assert((m.z.y) * (m.y.z) == m.y.z * m.z.y);
    assert((m.y.y) * (m.z.z) == m.y.y * m.z.z);
    assert((m.y.z * m.z.y) - (m.y.y * m.z.z) == g0);
    assert((g0) * (m.x.w) == g4);
    assert((g0) * (m.x.w) == g4);
    assert((m.y.y) * (m.x.z) == m.x.z * m.y.y);
    assert((m.x.y) * (m.y.z) == m.x.y * m.y.z);
    assert((m.x.z * m.y.y) - (m.x.y * m.y.z) == g5);
    assert((g5) * (m.z.w) == g6);
    assert((g5) * (m.z.w) == g6);
    assert((g4) + (g6) == g8);
    assert((m.x.y) * (m.z.z) == m.x.y * m.z.z);
    assert((m.z.y) * (m.x.z) == m.x.z * m.z.y);
    assert((m.x.y * m.z.z) - (m.x.z * m.z.y) == g9);
    assert((g9) * (m.y.w) == g10);
    assert((g9) * (m.y.w) == g10);
    assert((g8) + (g10) == g14);
    assert((m.y.x) * (g4) == g15);
    assert((m.y.x) * (g11) == g16);
    assert((m.y.x) * (g12) == g17);
    assert((m.y.x) * (g13) == g18);
    assert((m.y.x) * (g14) == g19);
    assert((m.y.x) * (g14) == g19);
    assert((0) - (g19) == g24);
    assert((m.y.y) * (m.y.z) == m.y.y * m.y.z);
    assert((m.y.y) * (m.y.z) == m.y.y * m.y.z);
    assert((m.y.y * m.y.z) - (m.y.y * m.y.z) == 0);
    assert((0) * (m.x.w) == 0);
    assert((m.y.y) * (m.x.z) == m.x.z * m.y.y);
    assert((m.x.y) * (m.y.z) == m.x.y * m.y.z);
    assert((m.x.z * m.y.y) - (m.x.y * m.y.z) == g5);
    assert((g5) * (m.y.w) == g25);
    assert((g5) * (m.y.w) == g25);
    assert((0) + (g25) == g25);
    assert((m.x.y) * (m.y.z) == m.x.y * m.y.z);
    assert((m.y.y) * (m.x.z) == m.x.z * m.y.y);
    assert((m.x.y * m.y.z) - (m.x.z * m.y.y) == g26);
    assert((g26) * (m.y.w) == g27);
    assert((g26) * (m.y.w) == g27);
    assert((g25) + (g27) == 0);
    assert((m.z.x) * (0) == 0);
    assert((g24) + (0) == g24);
    assert((m.y.y) * (m.z.z) == m.y.y * m.z.z);
    assert((m.z.y) * (m.y.z) == m.y.z * m.z.y);
    assert((m.y.y * m.z.z) - (m.y.z * m.z.y) == g2);
    assert((g2) * (m.x.w) == g28);
    assert((g2) * (m.x.w) == g28);
    assert((m.z.y) * (m.x.z) == m.x.z * m.z.y);
    assert((m.x.y) * (m.z.z) == m.x.y * m.z.z);
    assert((m.x.z * m.z.y) - (m.x.y * m.z.z) == g29);
    assert((g29) * (m.y.w) == g30);
    assert((g29) * (m.y.w) == g30);
    assert((g28) + (g30) == g32);
    assert((m.x.y) * (m.y.z) == m.x.y * m.y.z);
    assert((m.y.y) * (m.x.z) == m.x.z * m.y.y);
    assert((m.x.y * m.y.z) - (m.x.z * m.y.y) == g26);
    assert((g26) * (m.z.w) == g33);
    assert((g26) * (m.z.w) == g33);
    assert((g32) + (g33) == g36);
    assert((m.y.x) * (g28) == g20);
    assert((m.y.x) * (g31) == g21);
    assert((m.y.x) * (g34) == g22);
    assert((m.y.x) * (g35) == g23);
    assert((m.y.x) * (g36) == g24);
    assert((m.y.x) * (g36) == g24);
    assert((g24) - (g24) == 0);
}

proof fn singular4_case_z_w(m: M4)
    requires
        m.z == m.w,
    ensures
        m4_det(m).n == 0,
{
    let g0: int = (0 - m.y.y * m.z.z) + m.y.z * m.z.y;
    let g1: int = (0 - m.y.y * m.z.w * m.z.z) + m.y.z * m.z.w * m.z.y;
    let g2: int = m.y.y * m.z.z - m.y.z * m.z.y;
    let g3: int = m.y.y * m.z.w * m.z.z - m.y.z * m.z.w * m.z.y;
    let g4: int = (0 - m.x.y * m.z.z) + m.x.z * m.z.y;
    let g5: int = (0 - m.x.y * m.z.w * m.z.z) + m.x.z * m.z.w * m.z.y;
    let g6: int = m.x.y * m.z.z - m.x.z * m.z.y;
    let g7: int = m.x.y * m.z.w * m.z.z - m.x.z * m.z.w * m.z.y;
    let g8: int = m.x.w * m.y.y * m.z.z - m.x.w * m.y.z * m.z.y;
    let g9: int = (0 - m.x.y * m.y.w * m.z.z) + m.x.z * m.y.w * m.z.y;
    let g10: int = g8 - m.x.y * m.y.w * m.z.z;
    let g11: int = g10 + m.x.z * m.y.w * m.z.y;
    let g12: int = m.x.y * m.y.z - m.x.z * m.y.y;
    let g13: int = m.x.y * m.y.z * m.z.w - m.x.z * m.y.y * m.z.w;
    let g14: int = g10 + m.x.y * m.y.z * m.z.w;
    let g15: int = g14 + m.x.z * m.y.w * m.z.y;
    let g16: int = g15 - m.x.z * m.y.y * m.z.w;
    let g17: int = m.x.w * m.y.y * m.z.x * m.z.z - m.x.w * m.y.z * m.z.x * m.z.y;
    let g18: int = g17 - m.x.y * m.y.w * m.z.x * m.z.z;
    let g19: int = g18 + m.x.y * m.y.z * m.z.w * m.z.x;
    let g20: int = g19 + m.x.z * m.y.w * m.z.x * m.z.y;
    let g21: int = g20 - m.x.z * m.y.y * m.z.w * m.z.x;
    assert(m.z.y * m.y.z == m.y.z * m.z.y
        && ((0 - m.y.y * m.z.z) + m.y.z * m.z.y) * (m.z.w) == (0 - m.y.y * m.z.z) * (m.z.w) + (m.y.z * m.z.y) * (m.z.w)
        && ((0 - m.y.y * m.z.z)) * (m.z.w) == (0 - m.y.y * m.z.w * m.z.z)
        && (m.y.z * m.z.y) * m.z.w == m.y.z * m.z.w * m.z.y
    ) by (nonlinear_arith);
    assert((m.y.y * m.z.z - m.y.z * m.z.y) * (m.z.w) == m.y.y * m.z.z * (m.z.w) - (m.y.z * m.z.y) * (m.z.w)
        && (m.y.y * m.z.z) * m.z.w == m.y.y * m.z.w * m.z.z
        && m.z.y * m.x.z == m.x.z * m.z.y
    ) by (nonlinear_arith);
    assert(((0 - m.x.y * m.z.z) + m.x.z * m.z.y) * (m.z.w) == (0 - m.x.y * m.z.z) * (m.z.w) + (m.x.z * m.z.y) * (m.z.w)
        && ((0 - m.x.y * m.z.z)) * (m.z.w) == (0 - m.x.y * m.z.w * m.z.z)
        && (m.x.z * m.z.y) * m.z.w == m.x.z * m.z.w * m.z.y
    ) by (nonlinear_arith);
    assert((m.x.y * m.z.z - m.x.z * m.z.y) * (m.z.w) == m.x.y * m.z.z * (m.z.w) - (m.x.z * m.z.y) * (m.z.w)
        && (m.x.y * m.z.z) * m.z.w == m.x.y * m.z.w * m.z.z
        && (m.y.y * m.z.z - m.y.z * m.z.y) * (m.x.w) == m.y.y * m.z.z * (m.x.w) - (m.y.z * m.z.y) * (m.x.w)
    ) by (nonlinear_arith);
    assert((m.y.y * m.z.z) * m.x.w == m.x.w * m.y.y * m.z.z
        && (m.y.z * m.z.y) * m.x.w == m.x.w * m.y.z * m.z.y
        && ((0 - m.x.y * m.z.z) + m.x.z * m.z.y) * (m.y.w) == (0 - m.x.y * m.z.z) * (m.y.w) + (m.x.z * m.z.y) * (m.y.w)
    ) by (nonlinear_arith);
    assert(((0 - m.x.y * m.z.z)) * (m.y.w) == (0 - m.x.y * m.y.w * m.z.z)
        && (m.x.z * m.z.y) * m.y.w == m.x.z * m.y.w * m.z.y
        && m.y.y * m.x.z == m.x.z * m.y.y
        && (m.x.y * m.y.z - m.x.z * m.y.y) * (m.z.w) == m.x.y * m.y.z * (m.z.w) - (m.x.z * m.y.y) * (m.z.w)
    ) by (nonlinear_arith);
    assert((m.z.x) * (g15 - m.x.z * m.y.y * m.z.w) == (m.z.x) * (g15) - (m.z.x) * (m.x.z * m.y.y * m.z.w)
        && (m.z.x) * (g14 + m.x.z * m.y.w * m.z.y) == (m.z.x) * (g14) + (m.z.x) * (m.x.z * m.y.w * m.z.y)
    ) by (nonlinear_arith);
    assert((m.z.x) * (g10 + m.x.y * m.y.z * m.z.w) == (m.z.x) * (g10) + (m.z.x) * (m.x.y * m.y.z * m.z.w)
        && (m.z.x) * (g8 - m.x.y * m.y.w * m.z.z) == (m.z.x) * (g8) - (m.z.x) * (m.x.y * m.y.w * m.z.z)
    ) by (nonlinear_arith);
    assert((m.z.x) * (m.x.w * m.y.y * m.z.z - m.x.w * m.y.z * m.z.y) == (m.z.x) * (m.x.w * m.y.y * m.z.z) - (m.z.x) * (m.x.w * m.y.z * m.z.y)
        && m.z.x * (m.x.w * m.y.y * m.z.z) == m.x.w * m.y.y * m.z.x * m.z.z
    ) by (nonlinear_arith);
    assert(m.z.x * (m.x.w * m.y.z * m.z.y) == m.x.w * m.y.z * m.z.x * m.z.y
        && m.z.x * (m.x.y * m.y.w * m.z.z) == m.x.y * m.y.w * m.z.x * m.z.z
        && m.z.x * (m.x.y * m.y.z * m.z.w) == m.x.y * m.y.z * m.z.w * m.z.x
    ) by (nonlinear_arith);
    assert(m.z.x * (m.x.z * m.y.w * m.z.y) == m.x.z * m.y.w * m.z.x * m.z.y
        && m.z.x * (m.x.z * m.y.y * m.z.w) == m.x.z * m.y.y * m.z.w * m.z.x
    ) by (nonlinear_arith);
    assert(m.x.x * ((m.z.y * m.w.z - m.w.y * m.z.z) * m.y.w + (m.w.y * m.y.z - m.y.y * m.w.z) * m.z.w + (m.y.y * m.z.z - m.z.y * m.y.z) * m.w.w) - m.y.x * ((m.z.y * m.w.z - m.w.y * m.z.z) * m.x.w + (m.w.y * m.x.z - m.x.y * m.w.z) * m.z.w + (m.x.y * m.z.z - m.z.y * m.x.z) * m.w.w) + m.z.x * ((m.y.y * m.w.z - m.w.y * m.y.z) * m.x.w + (m.w.y * m.x.z - m.x.y * m.w.z) * m.y.w + (m.x.y * m.y.z - m.y.y * m.x.z) * m.w.w) - m.w.x * ((m.y.y * m.z.z - m.z.y * m.y.z) * m.x.w + (m.z.y * m.x.z - m.x.y * m.z.z) * m.y.w + (m.x.y * m.y.z - m.y.y * m.x.z) * m.z.w) == m.x.x * ((m.z.y * m.z.z - m.z.y * m.z.z) * m.y.w + (m.z.y * m.y.z - m.y.y * m.z.z) * m.z.w + (m.y.y * m.z.z - m.z.y * m.y.z) * m.z.w) - m.y.x * ((m.z.y * m.z.z - m.z.y * m.z.z) * m.x.w + (m.z.y * m.x.z - m.x.y * m.z.z) * m.z.w + (m.x.y * m.z.z - m.z.y * m.x.z) * m.z.w) + m.z.x * ((m.y.y * m.z.z - m.z.y * m.y.z) * m.x.w + (m.z.y * m.x.z - m.x.y * m.z.z) * m.y.w + (m.x.y * m.y.z - m.y.y * m.x.z) * m.z.w) - m.z.x * ((m.y.y * m.z.z - m.z.y * m.y.z) * m.x.w + (m.z.y * m.x.z - m.x.y * m.z.z) * m.y.w + (m.x.y * m.y.z - m.y.y * m.x.z) * m.z.w));
    assert((m.z.y) * (m.z.z) == m.z.y * m.z.z);
    assert((m.z.y) * (m.z.z) == m.z.y * m.z.z);
    assert((m.z.y * m.z.z) - (m.z.y * m.z.z) == 0);
    assert((0) * (m.y.w) == 0);
    assert((m.z.y) * (m.y.z) == m.y.z * m.z.y);
    assert((m.y.y) * (m.z.z) == m.y.y * m.z.z);
    assert((m.y.z * m.z.y) - (m.y.y * m.z.z) == g0);
    assert((g0) * (m.z.w) == g1);
    assert((g0) * (m.z.w) == g1);
    assert((0) + (g1) == g1);
    assert((m.y.y) * (m.z.z) == m.y.y * m.z.z);
    assert((m.z.y) * (m.y.z) == m.y.z * m.z.y);
    assert((m.y.y * m.z.z) - (m.y.z * m.z.y) == g2);
    assert((g2) * (m.z.w) == g3);
    assert((g2) * (m.z.w) == g3);
    assert((g1) + (g3) == 0);
    assert((m.x.x) * (0) == 0);
    assert((m.z.y) * (m.z.z) == m.z.y * m.z.z);
    assert((m.z.y) * (m.z.z) == m.z.y * m.z.z);
    assert((m.z.y * m.z.z) - (m.z.y * m.z.z) == 0);
    assert((0) * (m.x.w) == 0);
    assert((m.z.y) * (m.x.z) == m.x.z * m.z.y);
    assert((m.x.y) * (m.z.z) == m.x.y * m.z.z);
    assert((m.x.z * m.z.y) - (m.x.y * m.z.z) == g4);
    assert((g4) * (m.z.w) == g5);
    assert((g4) * (m.z.w) == g5);
    assert((0) + (g5) == g5);
    assert((m.x.y) * (m.z.z) == m.x.y * m.z.z);
    assert((m.z.y) * (m.x.z) == m.x.z * m.z.y);
    assert((m.x.y * m.z.z) - (m.x.z * m.z.y) == g6);
    assert((g6) * (m.z.w) == g7);
    assert((g6) * (m.z.w) == g7);
    assert((g5) + (g7) == 0);
    assert((m.y.x) * (0) == 0);
    assert((0) - (0) == 0);
    assert((m.y.y) * (m.z.z) == m.y.y * m.z.z);
    assert((m.z.y) * (m.y.z) == m.y.z * m.z.y);
    assert((m.y.y * m.z.z) - (m.y.z * m.z.y) == g2);
    assert((g2) * (m.x.w) == g8);
    assert((g2) * (m.x.w) == g8);
    assert((m.z.y) * (m.x.z) == m.x.z * m.z.y);
    assert((m.x.y) * (m.z.z) == m.x.y * m.z.z);
    assert((m.x.z * m.z.y) - (m.x.y * m.z.z) == g4);
    assert((g4) * (m.y.w) == g9);
    assert((g4) * (m.y.w) == g9);
    assert((g8) + (g9) == g11);
    assert((m.x.y) * (m.y.z) == m.x.y * m.y.z);
    assert((m.y.y) * (m.x.z) == m.x.z * m.y.y);
    assert((m.x.y * m.y.z) - (m.x.z * m.y.y) == g12);
    assert((g12) * (m.z.w) == g13);
    assert((g12) * (m.z.w) == g13);
    assert((g11) + (g13) == g16);
    assert((m.z.x) * (g8) == g17);
    assert((m.z.x) * (g10) == g18);
    assert((m.z.x) * (g14) == g19);
    assert((m.z.x) * (g15) == g20);
    assert((m.z.x) * (g16) == g21);
    assert((m.z.x) * (g16) == g21);
    assert((0) + (g21) == g21);
    assert((m.y.y) * (m.z.z) == m.y.y * m.z.z);
    assert((m.z.y) * (m.y.z) == m.y.z * m.z.y);
    assert((m.y.y * m.z.z) - (m.y.z * m.z.y) == g2);
    assert((g2) * (m.x.w) == g8);
    assert((m.z.y) * (m.x.z) == m.x.z * m.z.y);
    assert((m.x.y) * (m.z.z) == m.x.y * m.z.z);
    assert((m.x.z * m.z.y) - (m.x.y * m.z.z) == g4);
    assert((g4) * (m.y.w) == g9);
    assert((g8) + (g9) == g11);
    assert((m.x.y) * (m.y.z) == m.x.y * m.y.z);
    assert((m.y.y) * (m.x.z) == m.x.z * m.y.y);
    assert((m.x.y * m.y.z) - (m.x.z * m.y.y) == g12);
    assert((g12) * (m.z.w) == g13);
    assert((g11) + (g13) == g16);
    assert((m.z.x) * (g16) == g21);
    assert((g21) - (g21) == 0);
}

/// A matrix with two equal columns is singular: its determinant denotes
/// zero and it has no inverse.
pub proof fn lemma_equal_columns_singular_4(m: M4)
    requires
        m.x == m.y || m.x == m.z || m.x == m.w || m.y == m.z || m.y == m.w || m.z == m.w,
    ensures
        m4_det(m).n == 0,
        rat_sim(m4_det(m), rat_from_int(0)),
        m4_inverse(m) is None,
{
    if m.x == m.y {
        singular4_case_x_y(m);
    } else if m.x == m.z {
        singular4_case_x_z(m);
    } else if m.x == m.w {
        singular4_case_x_w(m);
    } else if m.y == m.z {
        singular4_case_y_z(m);
    } else if m.y == m.w {
        singular4_case_y_w(m);
    } else if m.z == m.w {
        singular4_case_z_w(m);
    }
}

proof fn assoc4_part_x_x(a: M4, b: M4, c: M4)
    ensures
        m4_mul(m4_mul(a, b), c).x.x == m4_mul(a, m4_mul(b, c)).x.x,
{
    let g0: int = a.x.x * b.x.x + a.y.x * b.x.y;
    let g1: int = g0 + a.z.x * b.x.z;
    let g2: int = a.w.x * b.x.w + a.x.x * b.x.x;
    let g3: int = g2 + a.y.x * b.x.y;
    let g4: int = g3 + a.z.x * b.x.z;
    let g5: int = a.w.x * b.x.w * c.x.x + a.x.x * b.x.x * c.x.x;
    let g6: int = g5 + a.y.x * b.x.y * c.x.x;
    let g7: int = g6 + a.z.x * b.x.z * c.x.x;
    let g8: int = a.x.x * b.y.x + a.y.x * b.y.y;
    let g9: int = g8 + a.z.x * b.y.z;
    let g10: int = a.w.x * b.y.w + a.x.x * b.y.x;
    let g11: int = g10 + a.y.x * b.y.y;
    let g12: int = g11 + a.z.x * b.y.z;
    let g13: int = a.w.x * b.y.w * c.x.y + a.x.x * b.y.x * c.x.y;
    let g14: int = g13 + a.y.x * b.y.y * c.x.y;
    let g15: int = g14 + a.z.x * b.y.z * c.x.y;
    let g16: int = a.w.x * b.x.w * c.x.x + a.w.x * b.y.w * c.x.y;
    let g17: int = g16 + a.x.x * b.x.x * c.x.x;
    let g18: int = g17 + a.x.x * b.y.x * c.x.y;
    let g19: int = g18 + a.y.x * b.x.y * c.x.x;
    let g20: int = g19 + a.y.x * b.y.y * c.x.y;
    let g21: int = g20 + a.z.x * b.x.z * c.x.x;
    let g22: int = g21 + a.z.x * b.y.z * c.x.y;
    let g23: int = a.x.x * b.z.x + a.y.x * b.z.y;
    let g24: int = g23 + a.z.x * b.z.z;
    let g25: int = a.w.x * b.z.w + a.x.x * b.z.x;
    let g26: int = g25 + a.y.x * b.z.y;
    let g27: int = g26 + a.z.x * b.z.z;
    let g28: int = a.w.x * b.z.w * c.x.z + a.x.x * b.z.x * c.x.z;
    let g29: int = g28 + a.y.x * b.z.y * c.x.z;
    let g30: int = g29 + a.z.x * b.z.z * c.x.z;
    let g31: int = g16 + a.w.x * b.z.w * c.x.z;
    let g32: int = g31 + a.x.x * b.x.x * c.x.x;
    let g33: int = g32 + a.x.x * b.y.x * c.x.y;
    let g34: int = g33 + a.x.x * b.z.x * c.x.z;
    let g35: int = g34 + a.y.x * b.x.y * c.x.x;
    let g36: int = g35 + a.y.x * b.y.y * c.x.y;
    let g37: int = g36 + a.y.x * b.z.y * c.x.z;
    let g38: int = g37 + a.z.x * b.x.z * c.x.x;
    let g39: int = g38 + a.z.x * b.y.z * c.x.y;
    let g40: int = g39 + a.z.x * b.z.z * c.x.z;
    let g41: int = a.x.x * b.w.x + a.y.x * b.w.y;
    let g42: int = g41 + a.z.x * b.w.z;
    let g43: int = a.w.x * b.w.w + a.x.x * b.w.x;
    let g44: int = g43 + a.y.x * b.w.y;
    let g45: int = g44 + a.z.x * b.w.z;
    let g46: int = a.w.x * b.w.w * c.x.w + a.x.x * b.w.x * c.x.w;
    let g47: int = g46 + a.y.x * b.w.y * c.x.w;
    let g48: int = g47 + a.z.x * b.w.z * c.x.w;
    let g49: int = a.w.x * b.w.w * c.x.w + a.w.x * b.x.w * c.x.x;
    let g50: int = g49 + a.w.x * b.y.w * c.x.y;
    let g51: int = g50 + a.w.x * b.z.w * c.x.z;
    let g52: int = g51 + a.x.x * b.w.x * c.x.w;
    let g53: int = g52 + a.x.x * b.x.x * c.x.x;
    let g54: int = g53 + a.x.x * b.y.x * c.x.y;
    let g55: int = g54 + a.x.x * b.z.x * c.x.z;
    let g56: int = g55 + a.y.x * b.w.y * c.x.w;
    let g57: int = g56 + a.y.x * b.x.y * c.x.x;
    let g58: int = g57 + a.y.x * b.y.y * c.x.y;
    let g59: int = g58 + a.y.x * b.z.y * c.x.z;
    let g60: int = g59 + a.z.x * b.w.z * c.x.w;
    let g61: int = g60 + a.z.x * b.x.z * c.x.x;
    let g62: int = g61 + a.z.x * b.y.z * c.x.y;
    let g63: int = g62 + a.z.x * b.z.z * c.x.z;
    let g64: int = b.x.x * c.x.x + b.y.x * c.x.y;
    let g65: int = g64 + b.z.x * c.x.z;
    let g66: int = b.w.x * c.x.w + b.x.x * c.x.x;
    let g67: int = g66 + b.y.x * c.x.y;
    let g68: int = g67 + b.z.x * c.x.z;
    let g69: int = a.x.x * b.w.x * c.x.w + a.x.x * b.x.x * c.x.x;
    let g70: int = g69 + a.x.x * b.y.x * c.x.y;
    let g71: int = g70 + a.x.x * b.z.x * c.x.z;
    let g72: int = b.x.y * c.x.x + b.y.y * c.x.y;
    let g73: int = g72 + b.z.y * c.x.z;
    let g74: int = b.w.y * c.x.w + b.x.y * c.x.x;
    let g75: int = g74 + b.y.y * c.x.y;
    let g76: int = g75 + b.z.y * c.x.z;
    let g77: int = a.y.x * b.w.y * c.x.w + a.y.x * b.x.y * c.x.x;
    let g78: int = g77 + a.y.x * b.y.y * c.x.y;
    let g79: int = g78 + a.y.x * b.z.y * c.x.z;
    let g80: int = g71 + a.y.x * b.w.y * c.x.w;
    let g81: int = g80 + a.y.x * b.x.y * c.x.x;
    let g82: int = g81 + a.y.x * b.y.y * c.x.y;
    let g83: int = g82 + a.y.x * b.z.y * c.x.z;
    let g84: int = b.x.z * c.x.x + b.y.z * c.x.y;
    let g85: int = g84 + b.z.z * c.x.z;
    let g86: int = b.w.z * c.x.w + b.x.z * c.x.x;
    let g87: int = g86 + b.y.z * c.x.y;
    let g88: int = g87 + b.z.z * c.x.z;
    let g89: int = a.z.x * b.w.z * c.x.w + a.z.x * b.x.z * c.x.x;
    let g90: int = g89 + a.z.x * b.y.z * c.x.y;
    let g91: int = g90 + a.z.x * b.z.z * c.x.z;
    let g92: int = g83 + a.z.x * b.w.z * c.x.w;
    let g93: int = g92 + a.z.x * b.x.z * c.x.x;
    let g94: int = g93 + a.z.x * b.y.z * c.x.y;
    let g95: int = g94 + a.z.x * b.z.z * c.x.z;
    let g96: int = b.x.w * c.x.x + b.y.w * c.x.y;
    let g97: int = g96 + b.z.w * c.x.z;
    let g98: int = b.w.w * c.x.w + b.x.w * c.x.x;
    let g99: int = g98 + b.y.w * c.x.y;
    let g100: int = g99 + b.z.w * c.x.z;
    assert((g3 + a.z.x * b.x.z) * (c.x.x) == g3 * (c.x.x) + (a.z.x * b.x.z) * (c.x.x)
        && (g2 + a.y.x * b.x.y) * (c.x.x) == g2 * (c.x.x) + (a.y.x * b.x.y) * (c.x.x)
        && (a.w.x * b.x.w + a.x.x * b.x.x) * (c.x.x) == a.w.x * b.x.w * (c.x.x) + (a.x.x * b.x.x) * (c.x.x)
    ) by (nonlinear_arith);
    assert((g11 + a.z.x * b.y.z) * (c.x.y) == g11 * (c.x.y) + (a.z.x * b.y.z) * (c.x.y)
        && (g10 + a.y.x * b.y.y) * (c.x.y) == g10 * (c.x.y) + (a.y.x * b.y.y) * (c.x.y)
        && (a.w.x * b.y.w + a.x.x * b.y.x) * (c.x.y) == a.w.x * b.y.w * (c.x.y) + (a.x.x * b.y.x) * (c.x.y)
    ) by (nonlinear_arith);
    assert((g26 + a.z.x * b.z.z) * (c.x.z) == g26 * (c.x.z) + (a.z.x * b.z.z) * (c.x.z)
        && (g25 + a.y.x * b.z.y) * (c.x.z) == g25 * (c.x.z) + (a.y.x * b.z.y) * (c.x.z)
        && (a.w.x * b.z.w + a.x.x * b.z.x) * (c.x.z) == a.w.x * b.z.w * (c.x.z) + (a.x.x * b.z.x) * (c.x.z)
    ) by (nonlinear_arith);
    assert((g44 + a.z.x * b.w.z) * (c.x.w) == g44 * (c.x.w) + (a.z.x * b.w.z) * (c.x.w)
        && (g43 + a.y.x * b.w.y) * (c.x.w) == g43 * (c.x.w) + (a.y.x * b.w.y) * (c.x.w)
        && (a.w.x * b.w.w + a.x.x * b.w.x) * (c.x.w) == a.w.x * b.w.w * (c.x.w) + (a.x.x * b.w.x) * (c.x.w)
    ) by (nonlinear_arith);
    assert((a.x.x) * (g67 + b.z.x * c.x.z) == (a.x.x) * (g67) + (a.x.x) * (b.z.x * c.x.z)
        && (a.x.x) * (g66 + b.y.x * c.x.y) == (a.x.x) * (g66) + (a.x.x) * (b.y.x * c.x.y)
        && (a.x.x) * (b.w.x * c.x.w + b.x.x * c.x.x) == (a.x.x) * (b.w.x * c.x.w) + (a.x.x) * (b.x.x * c.x.x)
    ) by (nonlinear_arith);
    assert(a.x.x * (b.w.x * c.x.w) == a.x.x * b.w.x * c.x.w
        && a.x.x * (b.x.x * c.x.x) == a.x.x * b.x.x * c.x.x
        && a.x.x * (b.y.x * c.x.y) == a.x.x * b.y.x * c.x.y
        && a.x.x * (b.z.x * c.x.z) == a.x.x * b.z.x * c.x.z
    ) by (nonlinear_arith);
    assert((a.y.x) * (g75 + b.z.y * c.x.z) == (a.y.x) * (g75) + (a.y.x) * (b.z.y * c.x.z)
        && (a.y.x) * (g74 + b.y.y * c.x.y) == (a.y.x) * (g74) + (a.y.x) * (b.y.y * c.x.y)
        && (a.y.x) * (b.w.y * c.x.w + b.x.y * c.x.x) == (a.y.x) * (b.w.y * c.x.w) + (a.y.x) * (b.x.y * c.x.x)
    ) by (nonlinear_arith);
    assert(a.y.x * (b.w.y * c.x.w) == a.y.x * b.w.y * c.x.w
        && a.y.x * (b.x.y * c.x.x) == a.y.x * b.x.y * c.x.x
        && a.y.x * (b.y.y * c.x.y) == a.y.x * b.y.y * c.x.y
        && a.y.x * (b.z.y * c.x.z) == a.y.x * b.z.y * c.x.z
    ) by (nonlinear_arith);
    assert((a.z.x) * (g87 + b.z.z * c.x.z) == (a.z.x) * (g87) + (a.z.x) * (b.z.z * c.x.z)
        && (a.z.x) * (g86 + b.y.z * c.x.y) == (a.z.x) * (g86) + (a.z.x) * (b.y.z * c.x.y)
        && (a.z.x) * (b.w.z * c.x.w + b.x.z * c.x.x) == (a.z.x) * (b.w.z * c.x.w) + (a.z.x) * (b.x.z * c.x.x)
    ) by (nonlinear_arith);
    assert(a.z.x * (b.w.z * c.x.w) == a.z.x * b.w.z * c.x.w
        && a.z.x * (b.x.z * c.x.x) == a.z.x * b.x.z * c.x.x
        && a.z.x * (b.y.z * c.x.y) == a.z.x * b.y.z * c.x.y
        && a.z.x * (b.z.z * c.x.z) == a.z.x * b.z.z * c.x.z
    ) by (nonlinear_arith);
    assert((a.w.x) * (g99 + b.z.w * c.x.z) == (a.w.x) * (g99) + (a.w.x) * (b.z.w * c.x.z)
        && (a.w.x) * (g98 + b.y.w * c.x.y) == (a.w.x) * (g98) + (a.w.x) * (b.y.w * c.x.y)
        && (a.w.x) * (b.w.w * c.x.w + b.x.w * c.x.x) == (a.w.x) * (b.w.w * c.x.w) + (a.w.x) * (b.x.w * c.x.x)
    ) by (nonlinear_arith);
    assert(a.w.x * (b.w.w * c.x.w) == a.w.x * b.w.w * c.x.w
        && a.w.x * (b.x.w * c.x.x) == a.w.x * b.x.w * c.x.x
        && a.w.x * (b.y.w * c.x.y) == a.w.x * b.y.w * c.x.y
        && a.w.x * (b.z.w * c.x.z) == a.w.x * b.z.w * c.x.z
    ) by (nonlinear_arith);
    assert((a.x.x) * (b.x.x) == a.x.x * b.x.x);
    assert((a.y.x) * (b.x.y) == a.y.x * b.x.y);
    assert((a.x.x * b.x.x) + (a.y.x * b.x.y) == g0);
    assert((a.z.x) * (b.x.z) == a.z.x * b.x.z);
    assert((g0) + (a.z.x * b.x.z) == g1);
    assert((a.w.x) * (b.x.w) == a.w.x * b.x.w);
    assert((g1) + (a.w.x * b.x.w) == g4);
    assert((g2) * (c.x.x) == g5);
    assert((g3) * (c.x.x) == g6);
    assert((g4) * (c.x.x) == g7);
    assert((g4) * (c.x.x) == g7);
    assert((a.x.x) * (b.y.x) == a.x.x * b.y.x);
    assert((a.y.x) * (b.y.y) == a.y.x * b.y.y);
    assert((a.x.x * b.y.x) + (a.y.x * b.y.y) == g8);
    assert((a.z.x) * (b.y.z) == a.z.x * b.y.z);
    assert((g8) + (a.z.x * b.y.z) == g9);
    assert((a.w.x) * (b.y.w) == a.w.x * b.y.w);
    assert((g9) + (a.w.x * b.y.w) == g12);
    assert((g10) * (c.x.y) == g13);
    assert((g11) * (c.x.y) == g14);
    assert((g12) * (c.x.y) == g15);
    assert((g12) * (c.x.y) == g15);
    assert((g7) + (g15) == g22);
    assert((a.x.x) * (b.z.x) == a.x.x * b.z.x);
    assert((a.y.x) * (b.z.y) == a.y.x * b.z.y);
    assert((a.x.x * b.z.x) + (a.y.x * b.z.y) == g23);
    assert((a.z.x) * (b.z.z) == a.z.x * b.z.z);
    assert((g23) + (a.z.x * b.z.z) == g24);
    assert((a.w.x) * (b.z.w) == a.w.x * b.z.w);
    assert((g24) + (a.w.x * b.z.w) == g27);
    assert((g25) * (c.x.z) == g28);
    assert((g26) * (c.x.z) == g29);
    assert((g27) * (c.x.z) == g30);
    assert((g27) * (c.x.z) == g30);
    assert((g22) + (g30) == g40);
    assert((a.x.x) * (b.w.x) == a.x.x * b.w.x);
    assert((a.y.x) * (b.w.y) == a.y.x * b.w.y);
    assert((a.x.x * b.w.x) + (a.y.x * b.w.y) == g41);
    assert((a.z.x) * (b.w.z) == a.z.x * b.w.z);
    assert((g41) + (a.z.x * b.w.z) == g42);
    assert((a.w.x) * (b.w.w) == a.w.x * b.w.w);
    assert((g42) + (a.w.x * b.w.w) == g45);
    assert((g43) * (c.x.w) == g46);
    assert((g44) * (c.x.w) == g47);
    assert((g45) * (c.x.w) == g48);
    assert((g45) * (c.x.w) == g48);
    assert((g40) + (g48) == g63);
    assert((b.x.x) * (c.x.x) == b.x.x * c.x.x);
    assert((b.y.x) * (c.x.y) == b.y.x * c.x.y);
    assert((b.x.x * c.x.x) + (b.y.x * c.x.y) == g64);
    assert((b.z.x) * (c.x.z) == b.z.x * c.x.z);
    assert((g64) + (b.z.x * c.x.z) == g65);
    assert((b.w.x) * (c.x.w) == b.w.x * c.x.w);
    assert((g65) + (b.w.x * c.x.w) == g68);
    assert((a.x.x) * (g66) == g69);
    assert((a.x.x) * (g67) == g70);
    assert((a.x.x) * (g68) == g71);
    assert((a.x.x) * (g68) == g71);
    assert((b.x.y) * (c.x.x) == b.x.y * c.x.x);
    assert((b.y.y) * (c.x.y) == b.y.y * c.x.y);
    assert((b.x.y * c.x.x) + (b.y.y * c.x.y) == g72);
    assert((b.z.y) * (c.x.z) == b.z.y * c.x.z);
    assert((g72) + (b.z.y * c.x.z) == g73);
    assert((b.w.y) * (c.x.w) == b.w.y * c.x.w);
    assert((g73) + (b.w.y * c.x.w) == g76);
    assert((a.y.x) * (g74) == g77);
    assert((a.y.x) * (g75) == g78);
    assert((a.y.x) * (g76) == g79);
    assert((a.y.x) * (g76) == g79);
    assert((g71) + (g79) == g83);
    assert((b.x.z) * (c.x.x) == b.x.z * c.x.x);
    assert((b.y.z) * (c.x.y) == b.y.z * c.x.y);
    assert((b.x.z * c.x.x) + (b.y.z * c.x.y) == g84);
    assert((b.z.z) * (c.x.z) == b.z.z * c.x.z);
    assert((g84) + (b.z.z * c.x.z) == g85);
    assert((b.w.z) * (c.x.w) == b.w.z * c.x.w);
    assert((g85) + (b.w.z * c.x.w) == g88);
    assert((a.z.x) * (g86) == g89);
    assert((a.z.x) * (g87) == g90);
    assert((a.z.x) * (g88) == g91);
    assert((a.z.x) * (g88) == g91);
    assert((g83) + (g91) == g95);
    assert((b.x.w) * (c.x.x) == b.x.w * c.x.x);
    assert((b.y.w) * (c.x.y) == b.y.w * c.x.y);
    assert((b.x.w * c.x.x) + (b.y.w * c.x.y) == g96);
    assert((b.z.w) * (c.x.z) == b.z.w * c.x.z);
    assert((g96) + (b.z.w * c.x.z) == g97);
    assert((b.w.w) * (c.x.w) == b.w.w * c.x.w);
    assert((g97) + (b.w.w * c.x.w) == g100);
    assert((a.w.x) * (g98) == g49);
    assert((a.w.x) * (g99) == g50);
    assert((a.w.x) * (g100) == g51);
    assert((a.w.x) * (g100) == g51);
    assert((g95) + (g51) == g63);
}

proof fn assoc4_part_x_y(a: M4, b: M4, c: M4)
    ensures
        m4_mul(m4_mul(a, b), c).x.y == m4_mul(a, m4_mul(b, c)).x.y,
{
    let g0: int = a.x.y * b.x.x + a.y.y * b.x.y;
    let g1: int = g0 + a.z.y * b.x.z;
    let g2: int = a.w.y * b.x.w + a.x.y * b.x.x;
    let g3: int = g2 + a.y.y * b.x.y;
    let g4: int = g3 + a.z.y * b.x.z;
    let g5: int = a.w.y * b.x.w * c.x.x + a.x.y * b.x.x * c.x.x;
    let g6: int = g5 + a.y.y * b.x.y * c.x.x;
    let g7: int = g6 + a.z.y * b.x.z * c.x.x;
    let g8: int = a.x.y * b.y.x + a.y.y * b.y.y;
    let g9: int = g8 + a.z.y * b.y.z;
    let g10: int = a.w.y * b.y.w + a.x.y * b.y.x;
    let g11: int = g10 + a.y.y * b.y.y;
    let g12: int = g11 + a.z.y * b.y.z;
    let g13: int = a.w.y * b.y.w * c.x.y + a.x.y * b.y.x * c.x.y;
    let g14: int = g13 + a.y.y * b.y.y * c.x.y;
    let g15: int = g14 + a.z.y * b.y.z * c.x.y;
    let g16: int = a.w.y * b.x.w * c.x.x + a.w.y * b.y.w * c.x.y;
    let g17: int = g16 + a.x.y * b.x.x * c.x.x;
    let g18: int = g17 + a.x.y * b.y.x * c.x.y;
    let g19: int = g18 + a.y.y * b.x.y * c.x.x;
    let g20: int = g19 + a.y.y * b.y.y * c.x.y;
    let g21: int = g20 + a.z.y * b.x.z * c.x.x;
    let g22: int = g21 + a.z.y * b.y.z * c.x.y;
    let g23: int = a.x.y * b.z.x + a.y.y * b.z.y;
    let g24: int = g23 + a.z.y * b.z.z;
    let g25: int = a.w.y * b.z.w + a.x.y * b.z.x;
    let g26: int = g25 + a.y.y * b.z.y;
    let g27: int = g26 + a.z.y * b.z.z;
    let g28: int = a.w.y * b.z.w * c.x.z + a.x.y * b.z.x * c.x.z;
    let g29: int = g28 + a.y.y * b.z.y * c.x.z;
    let g30: int = g29 + a.z.y * b.z.z * c.x.z;
    let g31: int = g16 + a.w.y * b.z.w * c.x.z;
    let g32: int = g31 + a.x.y * b.x.x * c.x.x;
    let g33: int = g32 + a.x.y * b.y.x * c.x.y;
    let g34: int = g33 + a.x.y * b.z.x * c.x.z;
    let g35: int = g34 + a.y.y * b.x.y * c.x.x;
    let g36: int = g35 + a.y.y * b.y.y * c.x.y;
    let g37: int = g36 + a.y.y * b.z.y * c.x.z;
    let g38: int = g37 + a.z.y * b.x.z * c.x.x;
    let g39: int = g38 + a.z.y * b.y.z * c.x.y;
    let g40: int = g39 + a.z.y * b.z.z * c.x.z;
    let g41: int = a.x.y * b.w.x + a.y.y * b.w.y;
    let g42: int = g41 + a.z.y * b.w.z;
    let g43: int = a.w.y * b.w.w + a.x.y * b.w.x;
    let g44: int = g43 + a.y.y * b.w.y;
    let g45: int = g44 + a.z.y * b.w.z;
    let g46: int = a.w.y * b.w.w * c.x.w + a.x.y * b.w.x * c.x.w;
    let g47: int = g46 + a.y.y * b.w.y * c.x.w;
    let g48: int = g47 + a.z.y * b.w.z * c.x.w;
    let g49: int = a.w.y * b.w.w * c.x.w + a.w.y * b.x.w * c.x.x;
    let g50: int = g49 + a.w.y * b.y.w * c.x.y;
    let g51: int = g50 + a.w.y * b.z.w * c.x.z;
    let g52: int = g51 + a.x.y * b.w.x * c.x.w;
    let g53: int = g52 + a.x.y * b.x.x * c.x.x;
    let g54: int = g53 + a.x.y * b.y.x * c.x.y;
    let g55: int = g54 + a.x.y * b.z.x * c.x.z;
    let g56: int = g55 + a.y.y * b.w.y * c.x.w;
    let g57: int = g56 + a.y.y * b.x.y * c.x.x;
    let g58: int = g57 + a.y.y * b.y.y * c.x.y;
    let g59: int = g58 + a.y.y * b.z.y * c.x.z;
    let g60: int = g59 + a.z.y * b.w.z * c.x.w;
    let g61: int = g60 + a.z.y * b.x.z * c.x.x;
    let g62: int = g61 + a.z.y * b.y.z * c.x.y;
    let g63: int = g62 + a.z.y * b.z.z * c.x.z;
    let g64: int = b.x.x * c.x.x + b.y.x * c.x.y;
    let g65: int = g64 + b.z.x * c.x.z;
    let g66: int = b.w.x * c.x.w + b.x.x * c.x.x;
    let g67: int = g66 + b.y.x * c.x.y;
    let g68: int = g67 + b.z.x * c.x.z;
    let g69: int = a.x.y * b.w.x * c.x.w + a.x.y * b.x.x * c.x.x;
    let g70: int = g69 + a.x.y * b.y.x * c.x.y;
    let g71: int = g70 + a.x.y * b.z.x * c.x.z;
    let g72: int = b.x.y * c.x.x + b.y.y * c.x.y;
    let g73: int = g72 + b.z.y * c.x.z;
    let g74: int = b.w.y * c.x.w + b.x.y * c.x.x;
    let g75: int = g74 + b.y.y * c.x.y;
    let g76: int = g75 + b.z.y * c.x.z;
    let g77: int = a.y.y * b.w.y * c.x.w + a.y.y * b.x.y * c.x.x;
    let g78: int = g77 + a.y.y * b.y.y * c.x.y;
    let g79: int = g78 + a.y.y * b.z.y * c.x.z;
    let g80: int = g71 + a.y.y * b.w.y * c.x.w;
    let g81: int = g80 + a.y.y * b.x.y * c.x.x;
    let g82: int = g81 + a.y.y * b.y.y * c.x.y;
    let g83: int = g82 + a.y.y * b.z.y * c.x.z;
    let g84: int = b.x.z * c.x.x + b.y.z * c.x.y;
    let g85: int = g84 + b.z.z * c.x.z;
    let g86: int = b.w.z * c.x.w + b.x.z * c.x.x;
    let g87: int = g86 + b.y.z * c.x.y;
    let g88: int = g87 + b.z.z * c.x.z;
    let g89: int = a.z.y * b.w.z * c.x.w + a.z.y * b.x.z * c.x.x;
    let g90: int = g89 + a.z.y * b.y.z * c.x.y;
    let g91: int = g90 + a.z.y * b.z.z * c.x.z;
    let g92: int = g83 + a.z.y * b.w.z * c.x.w;
    let g93: int = g92 + a.z.y * b.x.z * c.x.x;
    let g94: int = g93 + a.z.y * b.y.z * c.x.y;
    let g95: int = g94 + a.z.y * b.z.z * c.x.z;
    let g96: int = b.x.w * c.x.x + b.y.w * c.x.y;
    let g97: int = g96 + b.z.w * c.x.z;
    let g98: int = b.w.w * c.x.w + b.x.w * c.x.x;
    let g99: int = g98 + b.y.w * c.x.y;
    let g100: int = g99 + b.z.w * c.x.z;
    assert((g3 + a.z.y * b.x.z) * (c.x.x) == g3 * (c.x.x) + (a.z.y * b.x.z) * (c.x.x)
        && (g2 + a.y.y * b.x.y) * (c.x.x) == g2 * (c.x.x) + (a.y.y * b.x.y) * (c.x.x)
        && (a.w.y * b.x.w + a.x.y * b.x.x) * (c.x.x) == a.w.y * b.x.w * (c.x.x) + (a.x.y * b.x.x) * (c.x.x)
    ) by (nonlinear_arith);
    assert((g11 + a.z.y * b.y.z) * (c.x.y) == g11 * (c.x.y) + (a.z.y * b.y.z) * (c.x.y)
        && (g10 + a.y.y * b.y.y) * (c.x.y) == g10 * (c.x.y) + (a.y.y * b.y.y) * (c.x.y)
        && (a.w.y * b.y.w + a.x.y * b.y.x) * (c.x.y) == a.w.y * b.y.w * (c.x.y) + (a.x.y * b.y.x) * (c.x.y)
    ) by (nonlinear_arith);
    assert((g26 + a.z.y * b.z.z) * (c.x.z) == g26 * (c.x.z) + (a.z.y * b.z.z) * (c.x.z)
        && (g25 + a.y.y * b.z.y) * (c.x.z) == g25 * (c.x.z) + (a.y.y * b.z.y) * (c.x.z)
        && (a.w.y * b.z.w + a.x.y * b.z.x) * (c.x.z) == a.w.y * b.z.w * (c.x.z) + (a.x.y * b.z.x) * (c.x.z)
    ) by (nonlinear_arith);
    assert((g44 + a.z.y * b.w.z) * (c.x.w) == g44 * (c.x.w) + (a.z.y * b.w.z) * (c.x.w)
        && (g43 + a.y.y * b.w.y) * (c.x.w) == g43 * (c.x.w) + (a.y.y * b.w.y) * (c.x.w)
        && (a.w.y * b.w.w + a.x.y * b.w.x) * (c.x.w) == a.w.y * b.w.w * (c.x.w) + (a.x.y * b.w.x) * (c.x.w)
    ) by (nonlinear_arith);
    assert((a.x.y) * (g67 + b.z.x * c.x.z) == (a.x.y) * (g67) + (a.x.y) * (b.z.x * c.x.z)
        && (a.x.y) * (g66 + b.y.x * c.x.y) == (a.x.y) * (g66) + (a.x.y) * (b.y.x * c.x.y)
        && (a.x.y) * (b.w.x * c.x.w + b.x.x * c.x.x) == (a.x.y) * (b.w.x * c.x.w) + (a.x.y) * (b.x.x * c.x.x)
    ) by (nonlinear_arith);
    assert(a.x.y * (b.w.x * c.x.w) == a.x.y * b.w.x * c.x.w
        && a.x.y * (b.x.x * c.x.x) == a.x.y * b.x.x * c.x.x
        && a.x.y * (b.y.x * c.x.y) == a.x.y * b.y.x * c.x.y
        && a.x.y * (b.z.x * c.x.z) == a.x.y * b.z.x * c.x.z
    ) by (nonlinear_arith);
    assert((a.y.y) * (g75 + b.z.y * c.x.z) == (a.y.y) * (g75) + (a.y.y) * (b.z.y * c.x.z)
        && (a.y.y) * (g74 + b.y.y * c.x.y) == (a.y.y) * (g74) + (a.y.y) * (b.y.y * c.x.y)
        && (a.y.y) * (b.w.y * c.x.w + b.x.y * c.x.x) == (a.y.y) * (b.w.y * c.x.w) + (a.y.y) * (b.x.y * c.x.x)
    ) by (nonlinear_arith);
    assert(a.y.y * (b.w.y * c.x.w) == a.y.y * b.w.y * c.x.w
        && a.y.y * (b.x.y * c.x.x) == a.y.y * b.x.y * c.x.x
        && a.y.y * (b.y.y * c.x.y) == a.y.y * b.y.y * c.x.y
        && a.y.y * (b.z.y * c.x.z) == a.y.y * b.z.y * c.x.z
    ) by (nonlinear_arith);
    assert((a.z.y) * (g87 + b.z.z * c.x.z) == (a.z.y) * (g87) + (a.z.y) * (b.z.z * c.x.z)
        && (a.z.y) * (g86 + b.y.z * c.x.y) == (a.z.y) * (g86) + (a.z.y) * (b.y.z * c.x.y)
        && (a.z.y) * (b.w.z * c.x.w + b.x.z * c.x.x) == (a.z.y) * (b.w.z * c.x.w) + (a.z.y) * (b.x.z * c.x.x)
    ) by (nonlinear_arith);
    assert(a.z.y * (b.w.z * c.x.w) == a.z.y * b.w.z * c.x.w
        && a.z.y * (b.x.z * c.x.x) == a.z.y * b.x.z * c.x.x
        && a.z.y * (b.y.z * c.x.y) == a.z.y * b.y.z * c.x.y
        && a.z.y * (b.z.z * c.x.z) == a.z.y * b.z.z * c.x.z
    ) by (nonlinear_arith);
    assert((a.w.y) * (g99 + b.z.w * c.x.z) == (a.w.y) * (g99) + (a.w.y) * (b.z.w * c.x.z)
        && (a.w.y) * (g98 + b.y.w * c.x.y) == (a.w.y) * (g98) + (a.w.y) * (b.y.w * c.x.y)
        && (a.w.y) * (b.w.w * c.x.w + b.x.w * c.x.x) == (a.w.y) * (b.w.w * c.x.w) + (a.w.y) * (b.x.w * c.x.x)
    ) by (nonlinear_arith);
    assert(a.w.y * (b.w.w * c.x.w) == a.w.y * b.w.w * c.x.w
        && a.w.y * (b.x.w * c.x.x) == a.w.y * b.x.w * c.x.x
        && a.w.y * (b.y.w * c.x.y) == a.w.y * b.y.w * c.x.y
        && a.w.y * (b.z.w * c.x.z) == a.w.y * b.z.w * c.x.z
    ) by (nonlinear_arith);
    assert((a.x.y) * (b.x.x) == a.x.y * b.x.x);
    assert((a.y.y) * (b.x.y) == a.y.y * b.x.y);
    assert((a.x.y * b.x.x) + (a.y.y * b.x.y) == g0);
    assert((a.z.y) * (b.x.z) == a.z.y * b.x.z);
    assert((g0) + (a.z.y * b.x.z) == g1);
    assert((a.w.y) * (b.x.w) == a.w.y * b.x.w);
    assert((g1) + (a.w.y * b.x.w) == g4);
    assert((g2) * (c.x.x) == g5);
    assert((g3) * (c.x.x) == g6);
    assert((g4) * (c.x.x) == g7);
    assert((g4) * (c.x.x) == g7);
    assert((a.x.y) * (b.y.x) == a.x.y * b.y.x);
    assert((a.y.y) * (b.y.y) == a.y.y * b.y.y);
    assert((a.x.y * b.y.x) + (a.y.y * b.y.y) == g8);
    assert((a.z.y) * (b.y.z) == a.z.y * b.y.z);
    assert((g8) + (a.z.y * b.y.z) == g9);
    assert((a.w.y) * (b.y.w) == a.w.y * b.y.w);
    assert((g9) + (a.w.y * b.y.w) == g12);
    assert((g10) * (c.x.y) == g13);
    assert((g11) * (c.x.y) == g14);
    assert((g12) * (c.x.y) == g15);
    assert((g12) * (c.x.y) == g15);
    assert((g7) + (g15) == g22);
    assert((a.x.y) * (b.z.x) == a.x.y * b.z.x);
    assert((a.y.y) * (b.z.y) == a.y.y * b.z.y);
    assert((a.x.y * b.z.x) + (a.y.y * b.z.y) == g23);
    assert((a.z.y) * (b.z.z) == a.z.y * b.z.z);
    assert((g23) + (a.z.y * b.z.z) == g24);
    assert((a.w.y) * (b.z.w) == a.w.y * b.z.w);
    assert((g24) + (a.w.y * b.z.w) == g27);
    assert((g25) * (c.x.z) == g28);
    assert((g26) * (c.x.z) == g29);
    assert((g27) * (c.x.z) == g30);
    assert((g27) * (c.x.z) == g30);
    assert((g22) + (g30) == g40);
    assert((a.x.y) * (b.w.x) == a.x.y * b.w.x);
    assert((a.y.y) * (b.w.y) == a.y.y * b.w.y);
    assert((a.x.y * b.w.x) + (a.y.y * b.w.y) == g41);
    assert((a.z.y) * (b.w.z) == a.z.y * b.w.z);
    assert((g41) + (a.z.y * b.w.z) == g42);
    assert((a.w.y) * (b.w.w) == a.w.y * b.w.w);
    assert((g42) + (a.w.y * b.w.w) == g45);
    assert((g43) * (c.x.w) == g46);
    assert((g44) * (c.x.w) == g47);
    assert((g45) * (c.x.w) == g48);
    assert((g45) * (c.x.w) == g48);
    assert((g40) + (g48) == g63);
    assert((b.x.x) * (c.x.x) == b.x.x * c.x.x);
    assert((b.y.x) * (c.x.y) == b.y.x * c.x.y);
    assert((b.x.x * c.x.x) + (b.y.x * c.x.y) == g64);
    assert((b.z.x) * (c.x.z) == b.z.x * c.x.z);
    assert((g64) + (b.z.x * c.x.z) == g65);
    assert((b.w.x) * (c.x.w) == b.w.x * c.x.w);
    assert((g65) + (b.w.x * c.x.w) == g68);
    assert((a.x.y) * (g66) == g69);
    assert((a.x.y) * (g67) == g70);
    assert((a.x.y) * (g68) == g71);
    assert((a.x.y) * (g68) == g71);
    assert((b.x.y) * (c.x.x) == b.x.y * c.x.x);
    assert((b.y.y) * (c.x.y) == b.y.y * c.x.y);
    assert((b.x.y * c.x.x) + (b.y.y * c.x.y) == g72);
    assert((b.z.y) * (c.x.z) == b.z.y * c.x.z);
    assert((g72) + (b.z.y * c.x.z) == g73);
    assert((b.w.y) * (c.x.w) == b.w.y * c.x.w);
    assert((g73) + (b.w.y * c.x.w) == g76);
    assert((a.y.y) * (g74) == g77);
    assert((a.y.y) * (g75) == g78);
    assert((a.y.y) * (g76) == g79);
    assert((a.y.y) * (g76) == g79);
    assert((g71) + (g79) == g83);
    assert((b.x.z) * (c.x.x) == b.x.z * c.x.x);
    assert((b.y.z) * (c.x.y) == b.y.z * c.x.y);
    assert((b.x.z * c.x.x) + (b.y.z * c.x.y) == g84);
    assert((b.z.z) * (c.x.z) == b.z.z * c.x.z);
    assert((g84) + (b.z.z * c.x.z) == g85);
    assert((b.w.z) * (c.x.w) == b.w.z * c.x.w);
    assert((g85) + (b.w.z * c.x.w) == g88);
    assert((a.z.y) * (g86) == g89);
    assert((a.z.y) * (g87) == g90);
    assert((a.z.y) * (g88) == g91);
    assert((a.z.y) * (g88) == g91);
    assert((g83) + (g91) == g95);
    assert((b.x.w) * (c.x.x) == b.x.w * c.x.x);
    assert((b.y.w) * (c.x.y) == b.y.w * c.x.y);
    assert((b.x.w * c.x.x) + (b.y.w * c.x.y) == g96);
    assert((b.z.w) * (c.x.z) == b.z.w * c.x.z);
    assert((g96) + (b.z.w * c.x.z) == g97);
    assert((b.w.w) * (c.x.w) == b.w.w * c.x.w);
    assert((g97) + (b.w.w * c.x.w) == g100);
    assert((a.w.y) * (g98) == g49);
    assert((a.w.y) * (g99) == g50);
    assert((a.w.y) * (g100) == g51);
    assert((a.w.y) * (g100) == g51);
    assert((g95) + (g51) == g63);
}

proof fn assoc4_part_x_z(a: M4, b: M4, c: M4)
    ensures
        m4_mul(m4_mul(a, b), c).x.z == m4_mul(a, m4_mul(b, c)).x.z,
{
    let g0: int = a.x.z * b.x.x + a.y.z * b.x.y;
    let g1: int = g0 + a.z.z * b.x.z;
    let g2: int = a.w.z * b.x.w + a.x.z * b.x.x;
    let g3: int = g2 + a.y.z * b.x.y;
    let g4: int = g3 + a.z.z * b.x.z;
    let g5: int = a.w.z * b.x.w * c.x.x + a.x.z * b.x.x * c.x.x;
    let g6: int = g5 + a.y.z * b.x.y * c.x.x;
    let g7: int = g6 + a.z.z * b.x.z * c.x.x;
    let g8: int = a.x.z * b.y.x + a.y.z * b.y.y;
    let g9: int = g8 + a.z.z * b.y.z;
    let g10: int = a.w.z * b.y.w + a.x.z * b.y.x;
    let g11: int = g10 + a.y.z * b.y.y;
    let g12: int = g11 + a.z.z * b.y.z;
    let g13: int = a.w.z * b.y.w * c.x.y + a.x.z * b.y.x * c.x.y;
    let g14: int = g13 + a.y.z * b.y.y * c.x.y;
    let g15: int = g14 + a.z.z * b.y.z * c.x.y;
    let g16: int = a.w.z * b.x.w * c.x.x + a.w.z * b.y.w * c.x.y;
    let g17: int = g16 + a.x.z * b.x.x * c.x.x;
    let g18: int = g17 + a.x.z * b.y.x * c.x.y;
    let g19: int = g18 + a.y.z * b.x.y * c.x.x;
    let g20: int = g19 + a.y.z * b.y.y * c.x.y;
    let g21: int = g20 + a.z.z * b.x.z * c.x.x;
    let g22: int = g21 + a.z.z * b.y.z * c.x.y;
    let g23: int = a.x.z * b.z.x + a.y.z * b.z.y;
    let g24: int = g23 + a.z.z * b.z.z;
    let g25: int = a.w.z * b.z.w + a.x.z * b.z.x;
    let g26: int = g25 + a.y.z * b.z.y;
    let g27: int = g26 + a.z.z * b.z.z;
    let g28: int = a.w.z * b.z.w * c.x.z + a.x.z * b.z.x * c.x.z;
    let g29: int = g28 + a.y.z * b.z.y * c.x.z;
    let g30: int = g29 + a.z.z * b.z.z * c.x.z;
    let g31: int = g16 + a.w.z * b.z.w * c.x.z;
    let g32: int = g31 + a.x.z * b.x.x * c.x.x;
    let g33: int = g32 + a.x.z * b.y.x * c.x.y;
    let g34: int = g33 + a.x.z * b.z.x * c.x.z;
    let g35: int = g34 + a.y.z * b.x.y * c.x.x;
    let g36: int = g35 + a.y.z * b.y.y * c.x.y;
    let g37: int = g36 + a.y.z * b.z.y * c.x.z;
    let g38: int = g37 + a.z.z * b.x.z * c.x.x;
    let g39: int = g38 + a.z.z * b.y.z * c.x.y;
    let g40: int = g39 + a.z.z * b.z.z * c.x.z;
    let g41: int = a.x.z * b.w.x + a.y.z * b.w.y;
    let g42: int = g41 + a.z.z * b.w.z;
    let g43: int = a.w.z * b.w.w + a.x.z * b.w.x;
    let g44: int = g43 + a.y.z * b.w.y;
    let g45: int = g44 + a.z.z * b.w.z;
    let g46: int = a.w.z * b.w.w * c.x.w + a.x.z * b.w.x * c.x.w;
    let g47: int = g46 + a.y.z * b.w.y * c.x.w;
    let g48: int = g47 + a.z.z * b.w.z * c.x.w;
    let g49: int = a.w.z * b.w.w * c.x.w + a.w.z * b.x.w * c.x.x;
    let g50: int = g49 + a.w.z * b.y.w * c.x.y;
    let g51: int = g50 + a.w.z * b.z.w * c.x.z;
    let g52: int = g51 + a.x.z * b.w.x * c.x.w;
    let g53: int = g52 + a.x.z * b.x.x * c.x.x;
    let g54: int = g53 + a.x.z * b.y.x * c.x.y;
    let g55: int = g54 + a.x.z * b.z.x * c.x.z;
    let g56: int = g55 + a.y.z * b.w.y * c.x.w;
    let g57: int = g56 + a.y.z * b.x.y * c.x.x;
    let g58: int = g57 + a.y.z * b.y.y * c.x.y;
    let g59: int = g58 + a.y.z * b.z.y * c.x.z;
    let g60: int = g59 + a.z.z * b.w.z * c.x.w;
    let g61: int = g60 + a.z.z * b.x.z * c.x.x;
    let g62: int = g61 + a.z.z * b.y.z * c.x.y;
    let g63: int = g62 + a.z.z * b.z.z * c.x.z;
    let g64: int = b.x.x * c.x.x + b.y.x * c.x.y;
    let g65: int = g64 + b.z.x * c.x.z;
    let g66: int = b.w.x * c.x.w + b.x.x * c.x.x;
    let g67: int = g66 + b.y.x * c.x.y;
    let g68: int = g67 + b.z.x * c.x.z;
    let g69: int = a.x.z * b.w.x * c.x.w + a.x.z * b.x.x * c.x.x;
    let g70: int = g69 + a.x.z * b.y.x * c.x.y;
    let g71: int = g70 + a.x.z * b.z.x * c.x.z;
    let g72: int = b.x.y * c.x.x + b.y.y * c.x.y;
    let g73: int = g72 + b.z.y * c.x.z;
    let g74: int = b.w.y * c.x.w + b.x.y * c.x.x;
    let g75: int = g74 + b.y.y * c.x.y;
    let g76: int = g75 + b.z.y * c.x.z;
    let g77: int = a.y.z * b.w.y * c.x.w + a.y.z * b.x.y * c.x.x;
    let g78: int = g77 + a.y.z * b.y.y * c.x.y;
    let g79: int = g78 + a.y.z * b.z.y * c.x.z;
    let g80: int = g71 + a.y.z * b.w.y * c.x.w;
    let g81: int = g80 + a.y.z * b.x.y * c.x.x;
    let g82: int = g81 + a.y.z * b.y.y * c.x.y;
    let g83: int = g82 + a.y.z * b.z.y * c.x.z;
    let g84: int = b.x.z * c.x.x + b.y.z * c.x.y;
    let g85: int = g84 + b.z.z * c.x.z;
    let g86: int = b.w.z * c.x.w + b.x.z * c.x.x;
    let g87: int = g86 + b.y.z * c.x.y;
    let g88: int = g87 + b.z.z * c.x.z;
    let g89: int = a.z.z * b.w.z * c.x.w + a.z.z * b.x.z * c.x.x;
    let g90: int = g89 + a.z.z * b.y.z * c.x.y;
    let g91: int = g90 + a.z.z * b.z.z * c.x.z;
    let g92: int = g83 + a.z.z * b.w.z * c.x.w;
    let g93: int = g92 + a.z.z * b.x.z * c.x.x;
    let g94: int = g93 + a.z.z * b.y.z * c.x.y;
    let g95: int = g94 + a.z.z * b.z.z * c.x.z;
    let g96: int = b.x.w * c.x.x + b.y.w * c.x.y;
    let g97: int = g96 + b.z.w * c.x.z;
    let g98: int = b.w.w * c.x.w + b.x.w * c.x.x;
    let g99: int = g98 + b.y.w * c.x.y;
    let g100: int = g99 + b.z.w * c.x.z;
    assert((g3 + a.z.z * b.x.z) * (c.x.x) == g3 * (c.x.x) + (a.z.z * b.x.z) * (c.x.x)
        && (g2 + a.y.z * b.x.y) * (c.x.x) == g2 * (c.x.x) + (a.y.z * b.x.y) * (c.x.x)
        && (a.w.z * b.x.w + a.x.z * b.x.x) * (c.x.x) == a.w.z * b.x.w * (c.x.x) + (a.x.z * b.x.x) * (c.x.x)
    ) by (nonlinear_arith);
    assert((g11 + a.z.z * b.y.z) * (c.x.y) == g11 * (c.x.y) + (a.z.z * b.y.z) * (c.x.y)
        && (g10 + a.y.z * b.y.y) * (c.x.y) == g10 * (c.x.y) + (a.y.z * b.y.y) * (c.x.y)
        && (a.w.z * b.y.w + a.x.z * b.y.x) * (c.x.y) == a.w.z * b.y.w * (c.x.y) + (a.x.z * b.y.x) * (c.x.y)
    ) by (nonlinear_arith);
    assert((g26 + a.z.z * b.z.z) * (c.x.z) == g26 * (c.x.z) + (a.z.z * b.z.z) * (c.x.z)
        && (g25 + a.y.z * b.z.y) * (c.x.z) == g25 * (c.x.z) + (a.y.z * b.z.y) * (c.x.z)
        && (a.w.z * b.z.w + a.x.z * b.z.x) * (c.x.z) == a.w.z * b.z.w * (c.x.z) + (a.x.z * b.z.x) * (c.x.z)
    ) by (nonlinear_arith);
    assert((g44 + a.z.z * b.w.z) * (c.x.w) == g44 * (c.x.w) + (a.z.z * b.w.z) * (c.x.w)
        && (g43 + a.y.z * b.w.y) * (c.x.w) == g43 * (c.x.w) + (a.y.z * b.w.y) * (c.x.w)
        && (a.w.z * b.w.w + a.x.z * b.w.x) * (c.x.w) == a.w.z * b.w.w * (c.x.w) + (a.x.z * b.w.x) * (c.x.w)
    ) by (nonlinear_arith);
    assert((a.x.z) * (g67 + b.z.x * c.x.z) == (a.x.z) * (g67) + (a.x.z) * (b.z.x * c.x.z)
        && (a.x.z) * (g66 + b.y.x * c.x.y) == (a.x.z) * (g66) + (a.x.z) * (b.y.x * c.x.y)
        && (a.x.z) * (b.w.x * c.x.w + b.x.x * c.x.x) == (a.x.z) * (b.w.x * c.x.w) + (a.x.z) * (b.x.x * c.x.x)
    ) by (nonlinear_arith);
    assert(a.x.z * (b.w.x * c.x.w) == a.x.z * b.w.x * c.x.w
        && a.x.z * (b.x.x * c.x.x) == a.x.z * b.x.x * c.x.x
        && a.x.z * (b.y.x * c.x.y) == a.x.z * b.y.x * c.x.y
        && a.x.z * (b.z.x * c.x.z) == a.x.z * b.z.x * c.x.z
    ) by (nonlinear_arith);
    assert((a.y.z) * (g75 + b.z.y * c.x.z) == (a.y.z) * (g75) + (a.y.z) * (b.z.y * c.x.z)
        && (a.y.z) * (g74 + b.y.y * c.x.y) == (a.y.z) * (g74) + (a.y.z) * (b.y.y * c.x.y)
        && (a.y.z) * (b.w.y * c.x.w + b.x.y * c.x.x) == (a.y.z) * (b.w.y * c.x.w) + (a.y.z) * (b.x.y * c.x.x)
    ) by (nonlinear_arith);
    assert(a.y.z * (b.w.y * c.x.w) == a.y.z * b.w.y * c.x.w
        && a.y.z * (b.x.y * c.x.x) == a.y.z * b.x.y * c.x.x
        && a.y.z * (b.y.y * c.x.y) == a.y.z * b.y.y * c.x.y
        && a.y.z * (b.z.y * c.x.z) == a.y.z * b.z.y * c.x.z
    ) by (nonlinear_arith);
    assert((a.z.z) * (g87 + b.z.z * c.x.z) == (a.z.z) * (g87) + (a.z.z) * (b.z.z * c.x.z)
        && (a.z.z) * (g86 + b.y.z * c.x.y) == (a.z.z) * (g86) + (a.z.z) * (b.y.z * c.x.y)
        && (a.z.z) * (b.w.z * c.x.w + b.x.z * c.x.x) == (a.z.z) * (b.w.z * c.x.w) + (a.z.z) * (b.x.z * c.x.x)
    ) by (nonlinear_arith);
    assert(a.z.z * (b.w.z * c.x.w) == a.z.z * b.w.z * c.x.w
        && a.z.z * (b.x.z * c.x.x) == a.z.z * b.x.z * c.x.x
        && a.z.z * (b.y.z * c.x.y) == a.z.z * b.y.z * c.x.y
        && a.z.z * (b.z.z * c.x.z) == a.z.z * b.z.z * c.x.z
    ) by (nonlinear_arith);
    assert((a.w.z) * (g99 + b.z.w * c.x.z) == (a.w.z) * (g99) + (a.w.z) * (b.z.w * c.x.z)
        && (a.w.z) * (g98 + b.y.w * c.x.y) == (a.w.z) * (g98) + (a.w.z) * (b.y.w * c.x.y)
        && (a.w.z) * (b.w.w * c.x.w + b.x.w * c.x.x) == (a.w.z) * (b.w.w * c.x.w) + (a.w.z) * (b.x.w * c.x.x)
    ) by (nonlinear_arith);
    assert(a.w.z * (b.w.w * c.x.w) == a.w.z * b.w.w * c.x.w
        && a.w.z * (b.x.w * c.x.x) == a.w.z * b.x.w * c.x.x
        && a.w.z * (b.y.w * c.x.y) == a.w.z * b.y.w * c.x.y
        && a.w.z * (b.z.w * c.x.z) == a.w.z * b.z.w * c.x.z
    ) by (nonlinear_arith);
    assert((a.x.z) * (b.x.x) == a.x.z * b.x.x);
    assert((a.y.z) * (b.x.y) == a.y.z * b.x.y);
    assert((a.x.z * b.x.x) + (a.y.z * b.x.y) == g0);
    assert((a.z.z) * (b.x.z) == a.z.z * b.x.z);
    assert((g0) + (a.z.z * b.x.z) == g1);
    assert((a.w.z) * (b.x.w) == a.w.z * b.x.w);
    assert((g1) + (a.w.z * b.x.w) == g4);
    assert((g2) * (c.x.x) == g5);
    assert((g3) * (c.x.x) == g6);
    assert((g4) * (c.x.x) == g7);
    assert((g4) * (c.x.x) == g7);
    assert((a.x.z) * (b.y.x) == a.x.z * b.y.x);
    assert((a.y.z) * (b.y.y) == a.y.z * b.y.y);
    assert((a.x.z * b.y.x) + (a.y.z * b.y.y) == g8);
    assert((a.z.z) * (b.y.z) == a.z.z * b.y.z);
    assert((g8) + (a.z.z * b.y.z) == g9);
    assert((a.w.z) * (b.y.w) == a.w.z * b.y.w);
    assert((g9) + (a.w.z * b.y.w) == g12);
    assert((g10) * (c.x.y) == g13);
    assert((g11) * (c.x.y) == g14);
    assert((g12) * (c.x.y) == g15);
    assert((g12) * (c.x.y) == g15);
    assert((g7) + (g15) == g22);
    assert((a.x.z) * (b.z.x) == a.x.z * b.z.x);
    assert((a.y.z) * (b.z.y) == a.y.z * b.z.y);
    assert((a.x.z * b.z.x) + (a.y.z * b.z.y) == g23);
    assert((a.z.z) * (b.z.z) == a.z.z * b.z.z);
    assert((g23) + (a.z.z * b.z.z) == g24);
    assert((a.w.z) * (b.z.w) == a.w.z * b.z.w);
    assert((g24) + (a.w.z * b.z.w) == g27);
    assert((g25) * (c.x.z) == g28);
    assert((g26) * (c.x.z) == g29);
    assert((g27) * (c.x.z) == g30);
    assert((g27) * (c.x.z) == g30);
    assert((g22) + (g30) == g40);
    assert((a.x.z) * (b.w.x) == a.x.z * b.w.x);
    assert((a.y.z) * (b.w.y) == a.y.z * b.w.y);
    assert((a.x.z * b.w.x) + (a.y.z * b.w.y) == g41);
    assert((a.z.z) * (b.w.z) == a.z.z * b.w.z);
    assert((g41) + (a.z.z * b.w.z) == g42);
    assert((a.w.z) * (b.w.w) == a.w.z * b.w.w);
    assert((g42) + (a.w.z * b.w.w) == g45);
    assert((g43) * (c.x.w) == g46);
    assert((g44) * (c.x.w) == g47);
    assert((g45) * (c.x.w) == g48);
    assert((g45) * (c.x.w) == g48);
    assert((g40) + (g48) == g63);
    assert((b.x.x) * (c.x.x) == b.x.x * c.x.x);
    assert((b.y.x) * (c.x.y) == b.y.x * c.x.y);
    assert((b.x.x * c.x.x) + (b.y.x * c.x.y) == g64);
    assert((b.z.x) * (c.x.z) == b.z.x * c.x.z);
    assert((g64) + (b.z.x * c.x.z) == g65);
    assert((b.w.x) * (c.x.w) == b.w.x * c.x.w);
    assert((g65) + (b.w.x * c.x.w) == g68);
    assert((a.x.z) * (g66) == g69);
    assert((a.x.z) * (g67) == g70);
    assert((a.x.z) * (g68) == g71);
    assert((a.x.z) * (g68) == g71);
    assert((b.x.y) * (c.x.x) == b.x.y * c.x.x);
    assert((b.y.y) * (c.x.y) == b.y.y * c.x.y);
    assert((b.x.y * c.x.x) + (b.y.y * c.x.y) == g72);
    assert((b.z.y) * (c.x.z) == b.z.y * c.x.z);
    assert((g72) + (b.z.y * c.x.z) == g73);
    assert((b.w.y) * (c.x.w) == b.w.y * c.x.w);
    assert((g73) + (b.w.y * c.x.w) == g76);
    assert((a.y.z) * (g74) == g77);
    assert((a.y.z) * (g75) == g78);
    assert((a.y.z) * (g76) == g79);
    assert((a.y.z) * (g76) == g79);
    assert((g71) + (g79) == g83);
    assert((b.x.z) * (c.x.x) == b.x.z * c.x.x);
    assert((b.y.z) * (c.x.y) == b.y.z * c.x.y);
    assert((b.x.z * c.x.x) + (b.y.z * c.x.y) == g84);
    assert((b.z.z) * (c.x.z) == b.z.z * c.x.z);
    assert((g84) + (b.z.z * c.x.z) == g85);
    assert((b.w.z) * (c.x.w) == b.w.z * c.x.w);
    assert((g85) + (b.w.z * c.x.w) == g88);
    assert((a.z.z) * (g86) == g89);
    assert((a.z.z) * (g87) == g90);
    assert((a.z.z) * (g88) == g91);
    assert((a.z.z) * (g88) == g91);
    assert((g83) + (g91) == g95);
    assert((b.x.w) * (c.x.x) == b.x.w * c.x.x);
    assert((b.y.w) * (c.x.y) == b.y.w * c.x.y);
    assert((b.x.w * c.x.x) + (b.y.w * c.x.y) == g96);
    assert((b.z.w) * (c.x.z) == b.z.w * c.x.z);
    assert((g96) + (b.z.w * c.x.z) == g97);
    assert((b.w.w) * (c.x.w) == b.w.w * c.x.w);
    assert((g97) + (b.w.w * c.x.w) == g100);
    assert((a.w.z) * (g98) == g49);
    assert((a.w.z) * (g99) == g50);
    assert((a.w.z) * (g100) == g51);
    assert((a.w.z) * (g100) == g51);
    assert((g95) + (g51) == g63);
}

proof fn assoc4_part_x_w(a: M4, b: M4, c: M4)
    ensures
        m4_mul(m4_mul(a, b), c).x.w == m4_mul(a, m4_mul(b, c)).x.w,
{
    let g0: int = a.x.w * b.x.x + a.y.w * b.x.y;
    let g1: int = g0 + a.z.w * b.x.z;
    let g2: int = a.w.w * b.x.w + a.x.w * b.x.x;
    let g3: int = g2 + a.y.w * b.x.y;
    let g4: int = g3 + a.z.w * b.x.z;
    let g5: int = a.w.w * b.x.w * c.x.x + a.x.w * b.x.x * c.x.x;
    let g6: int = g5 + a.y.w * b.x.y * c.x.x;
    let g7: int = g6 + a.z.w * b.x.z * c.x.x;
    let g8: int = a.x.w * b.y.x + a.y.w * b.y.y;
    let g9: int = g8 + a.z.w * b.y.z;
    let g10: int = a.w.w * b.y.w + a.x.w * b.y.x;
    let g11: int = g10 + a.y.w * b.y.y;
    let g12: int = g11 + a.z.w * b.y.z;
    let g13: int = a.w.w * b.y.w * c.x.y + a.x.w * b.y.x * c.x.y;
    let g14: int = g13 + a.y.w * b.y.y * c.x.y;
    let g15: int = g14 + a.z.w * b.y.z * c.x.y;
    let g16: int = a.w.w * b.x.w * c.x.x + a.w.w * b.y.w * c.x.y;
    let g17: int = g16 + a.x.w * b.x.x * c.x.x;
    let g18: int = g17 + a.x.w * b.y.x * c.x.y;
    let g19: int = g18 + a.y.w * b.x.y * c.x.x;
    let g20: int = g19 + a.y.w * b.y.y * c.x.y;
    let g21: int = g20 + a.z.w * b.x.z * c.x.x;
    let g22: int = g21 + a.z.w * b.y.z * c.x.y;
    let g23: int = a.x.w * b.z.x + a.y.w * b.z.y;
    let g24: int = g23 + a.z.w * b.z.z;
    let g25: int = a.w.w * b.z.w + a.x.w * b.z.x;
    let g26: int = g25 + a.y.w * b.z.y;
    let g27: int = g26 + a.z.w * b.z.z;
    let g28: int = a.w.w * b.z.w * c.x.z + a.x.w * b.z.x * c.x.z;
    let g29: int = g28 + a.y.w * b.z.y * c.x.z;
    let g30: int = g29 + a.z.w * b.z.z * c.x.z;
    let g31: int = g16 + a.w.w * b.z.w * c.x.z;
    let g32: int = g31 + a.x.w * b.x.x * c.x.x;
    let g33: int = g32 + a.x.w * b.y.x * c.x.y;
    let g34: int = g33 + a.x.w * b.z.x * c.x.z;
    let g35: int = g34 + a.y.w * b.x.y * c.x.x;
    let g36: int = g35 + a.y.w * b.y.y * c.x.y;
    let g37: int = g36 + a.y.w * b.z.y * c.x.z;
    let g38: int = g37 + a.z.w * b.x.z * c.x.x;
    let g39: int = g38 + a.z.w * b.y.z * c.x.y;
    let g40: int = g39 + a.z.w * b.z.z * c.x.z;
    let g41: int = a.x.w * b.w.x + a.y.w * b.w.y;
    let g42: int = g41 + a.z.w * b.w.z;
    let g43: int = a.w.w * b.w.w + a.x.w * b.w.x;
    let g44: int = g43 + a.y.w * b.w.y;
    let g45: int = g44 + a.z.w * b.w.z;
    let g46: int = a.w.w * b.w.w * c.x.w + a.x.w * b.w.x * c.x.w;
    let g47: int = g46 + a.y.w * b.w.y * c.x.w;
    let g48: int = g47 + a.z.w * b.w.z * c.x.w;
    let g49: int = a.w.w * b.w.w * c.x.w + a.w.w * b.x.w * c.x.x;
    let g50: int = g49 + a.w.w * b.y.w * c.x.y;
    let g51: int = g50 + a.w.w * b.z.w * c.x.z;
    let g52: int = g51 + a.x.w * b.w.x * c.x.w;
    let g53: int = g52 + a.x.w * b.x.x * c.x.x;
    let g54: int = g53 + a.x.w * b.y.x * c.x.y;
    let g55: int = g54 + a.x.w * b.z.x * c.x.z;
    let g56: int = g55 + a.y.w * b.w.y * c.x.w;
    let g57: int = g56 + a.y.w * b.x.y * c.x.x;
    let g58: int = g57 + a.y.w * b.y.y * c.x.y;
    let g59: int = g58 + a.y.w * b.z.y * c.x.z;
    let g60: int = g59 + a.z.w * b.w.z * c.x.w;
    let g61: int = g60 + a.z.w * b.x.z * c.x.x;
    let g62: int = g61 + a.z.w * b.y.z * c.x.y;
    let g63: int = g62 + a.z.w * b.z.z * c.x.z;
    let g64: int = b.x.x * c.x.x + b.y.x * c.x.y;
    let g65: int = g64 + b.z.x * c.x.z;
    let g66: int = b.w.x * c.x.w + b.x.x * c.x.x;
    let g67: int = g66 + b.y.x * c.x.y;
    let g68: int = g67 + b.z.x * c.x.z;
    let g69: int = a.x.w * b.w.x * c.x.w + a.x.w * b.x.x * c.x.x;
    let g70: int = g69 + a.x.w * b.y.x * c.x.y;
    let g71: int = g70 + a.x.w * b.z.x * c.x.z;
    let g72: int = b.x.y * c.x.x + b.y.y * c.x.y;
    let g73: int = g72 + b.z.y * c.x.z;
    let g74: int = b.w.y * c.x.w + b.x.y * c.x.x;
    let g75: int = g74 + b.y.y * c.x.y;
    let g76: int = g75 + b.z.y * c.x.z;
    let g77: int = a.y.w * b.w.y * c.x.w + a.y.w * b.x.y * c.x.x;
    let g78: int = g77 + a.y.w * b.y.y * c.x.y;
    let g79: int = g78 + a.y.w * b.z.y * c.x.z;
    let g80: int = g71 + a.y.w * b.w.y * c.x.w;
    let g81: int = g80 + a.y.w * b.x.y * c.x.x;
    let g82: int = g81 + a.y.w * b.y.y * c.x.y;
    let g83: int = g82 + a.y.w * b.z.y * c.x.z;
    let g84: int = b.x.z * c.x.x + b.y.z * c.x.y;
    let g85: int = g84 + b.z.z * c.x.z;
    let g86: int = b.w.z * c.x.w + b.x.z * c.x.x;
    let g87: int = g86 + b.y.z * c.x.y;
    let g88: int = g87 + b.z.z * c.x.z;
    let g89: int = a.z.w * b.w.z * c.x.w + a.z.w * b.x.z * c.x.x;
    let g90: int = g89 + a.z.w * b.y.z * c.x.y;
    let g91: int = g90 + a.z.w * b.z.z * c.x.z;
    let g92: int = g83 + a.z.w * b.w.z * c.x.w;
    let g93: int = g92 + a.z.w * b.x.z * c.x.x;
    let g94: int = g93 + a.z.w * b.y.z * c.x.y;
    let g95: int = g94 + a.z.w * b.z.z * c.x.z;
    let g96: int = b.x.w * c.x.x + b.y.w * c.x.y;
    let g97: int = g96 + b.z.w * c.x.z;
    let g98: int = b.w.w * c.x.w + b.x.w * c.x.x;
    let g99: int = g98 + b.y.w * c.x.y;
    let g100: int = g99 + b.z.w * c.x.z;
    assert((g3 + a.z.w * b.x.z) * (c.x.x) == g3 * (c.x.x) + (a.z.w * b.x.z) * (c.x.x)
        && (g2 + a.y.w * b.x.y) * (c.x.x) == g2 * (c.x.x) + (a.y.w * b.x.y) * (c.x.x)
        && (a.w.w * b.x.w + a.x.w * b.x.x) * (c.x.x) == a.w.w * b.x.w * (c.x.x) + (a.x.w * b.x.x) * (c.x.x)
    ) by (nonlinear_arith);
    assert((g11 + a.z.w * b.y.z) * (c.x.y) == g11 * (c.x.y) + (a.z.w * b.y.z) * (c.x.y)
        && (g10 + a.y.w * b.y.y) * (c.x.y) == g10 * (c.x.y) + (a.y.w * b.y.y) * (c.x.y)
        && (a.w.w * b.y.w + a.x.w * b.y.x) * (c.x.y) == a.w.w * b.y.w * (c.x.y) + (a.x.w * b.y.x) * (c.x.y)
    ) by (nonlinear_arith);
    assert((g26 + a.z.w * b.z.z) * (c.x.z) == g26 * (c.x.z) + (a.z.w * b.z.z) * (c.x.z)
        && (g25 + a.y.w * b.z.y) * (c.x.z) == g25 * (c.x.z) + (a.y.w * b.z.y) * (c.x.z)
        && (a.w.w * b.z.w + a.x.w * b.z.x) * (c.x.z) == a.w.w * b.z.w * (c.x.z) + (a.x.w * b.z.x) * (c.x.z)
    ) by (nonlinear_arith);
    assert((g44 + a.z.w * b.w.z) * (c.x.w) == g44 * (c.x.w) + (a.z.w * b.w.z) * (c.x.w)
        && (g43 + a.y.w * b.w.y) * (c.x.w) == g43 * (c.x.w) + (a.y.w * b.w.y) * (c.x.w)
        && (a.w.w * b.w.w + a.x.w * b.w.x) * (c.x.w) == a.w.w * b.w.w * (c.x.w) + (a.x.w * b.w.x) * (c.x.w)
    ) by (nonlinear_arith);
    assert((a.x.w) * (g67 + b.z.x * c.x.z) == (a.x.w) * (g67) + (a.x.w) * (b.z.x * c.x.z)
        && (a.x.w) * (g66 + b.y.x * c.x.y) == (a.x.w) * (g66) + (a.x.w) * (b.y.x * c.x.y)
        && (a.x.w) * (b.w.x * c.x.w + b.x.x * c.x.x) == (a.x.w) * (b.w.x * c.x.w) + (a.x.w) * (b.x.x * c.x.x)
    ) by (nonlinear_arith);
    assert(a.x.w * (b.w.x * c.x.w) == a.x.w * b.w.x * c.x.w
        && a.x.w * (b.x.x * c.x.x) == a.x.w * b.x.x * c.x.x
        && a.x.w * (b.y.x * c.x.y) == a.x.w * b.y.x * c.x.y
        && a.x.w * (b.z.x * c.x.z) == a.x.w * b.z.x * c.x.z
    ) by (nonlinear_arith);
    assert((a.y.w) * (g75 + b.z.y * c.x.z) == (a.y.w) * (g75) + (a.y.w) * (b.z.y * c.x.z)
        && (a.y.w) * (g74 + b.y.y * c.x.y) == (a.y.w) * (g74) + (a.y.w) * (b.y.y * c.x.y)
        && (a.y.w) * (b.w.y * c.x.w + b.x.y * c.x.x) == (a.y.w) * (b.w.y * c.x.w) + (a.y.w) * (b.x.y * c.x.x)
    ) by (nonlinear_arith);
    assert(a.y.w * (b.w.y * c.x.w) == a.y.w * b.w.y * c.x.w
        && a.y.w * (b.x.y * c.x.x) == a.y.w * b.x.y * c.x.x
        && a.y.w * (b.y.y * c.x.y) == a.y.w * b.y.y * c.x.y
        && a.y.w * (b.z.y * c.x.z) == a.y.w * b.z.y * c.x.z
    ) by (nonlinear_arith);
    assert((a.z.w) * (g87 + b.z.z * c.x.z) == (a.z.w) * (g87) + (a.z.w) * (b.z.z * c.x.z)
        && (a.z.w) * (g86 + b.y.z * c.x.y) == (a.z.w) * (g86) + (a.z.w) * (b.y.z * c.x.y)
        && (a.z.w) * (b.w.z * c.x.w + b.x.z * c.x.x) == (a.z.w) * (b.w.z * c.x.w) + (a.z.w) * (b.x.z * c.x.x)
    ) by (nonlinear_arith);
    assert(a.z.w * (b.w.z * c.x.w) == a.z.w * b.w.z * c.x.w
        && a.z.w * (b.x.z * c.x.x) == a.z.w * b.x.z * c.x.x
        && a.z.w * (b.y.z * c.x.y) == a.z.w * b.y.z * c.x.y
        && a.z.w * (b.z.z * c.x.z) == a.z.w * b.z.z * c.x.z
    ) by (nonlinear_arith);
    assert((a.w.w) * (g99 + b.z.w * c.x.z) == (a.w.w) * (g99) + (a.w.w) * (b.z.w * c.x.z)
        && (a.w.w) * (g98 + b.y.w * c.x.y) == (a.w.w) * (g98) + (a.w.w) * (b.y.w * c.x.y)
        && (a.w.w) * (b.w.w * c.x.w + b.x.w * c.x.x) == (a.w.w) * (b.w.w * c.x.w) + (a.w.w) * (b.x.w * c.x.x)
    ) by (nonlinear_arith);
    assert(a.w.w * (b.w.w * c.x.w) == a.w.w * b.w.w * c.x.w
        && a.w.w * (b.x.w * c.x.x) == a.w.w * b.x.w * c.x.x
        && a.w.w * (b.y.w * c.x.y) == a.w.w * b.y.w * c.x.y
        && a.w.w * (b.z.w * c.x.z) == a.w.w * b.z.w * c.x.z
    ) by (nonlinear_arith);
    assert((a.x.w) * (b.x.x) == a.x.w * b.x.x);
    assert((a.y.w) * (b.x.y) == a.y.w * b.x.y);
    assert((a.x.w * b.x.x) + (a.y.w * b.x.y) == g0);
    assert((a.z.w) * (b.x.z) == a.z.w * b.x.z);
    assert((g0) + (a.z.w * b.x.z) == g1);
    assert((a.w.w) * (b.x.w) == a.w.w * b.x.w);
    assert((g1) + (a.w.w * b.x.w) == g4);
    assert((g2) * (c.x.x) == g5);
    assert((g3) * (c.x.x) == g6);
    assert((g4) * (c.x.x) == g7);
    assert((g4) * (c.x.x) == g7);
    assert((a.x.w) * (b.y.x) == a.x.w * b.y.x);
    assert((a.y.w) * (b.y.y) == a.y.w * b.y.y);
    assert((a.x.w * b.y.x) + (a.y.w * b.y.y) == g8);
    assert((a.z.w) * (b.y.z) == a.z.w * b.y.z);
    assert((g8) + (a.z.w * b.y.z) == g9);
    assert((a.w.w) * (b.y.w) == a.w.w * b.y.w);
    assert((g9) + (a.w.w * b.y.w) == g12);
    assert((g10) * (c.x.y) == g13);
    assert((g11) * (c.x.y) == g14);
    assert((g12) * (c.x.y) == g15);
    assert((g12) * (c.x.y) == g15);
    assert((g7) + (g15) == g22);
    assert((a.x.w) * (b.z.x) == a.x.w * b.z.x);
    assert((a.y.w) * (b.z.y) == a.y.w * b.z.y);
    assert((a.x.w * b.z.x) + (a.y.w * b.z.y) == g23);
    assert((a.z.w) * (b.z.z) == a.z.w * b.z.z);
    assert((g23) + (a.z.w * b.z.z) == g24);
    assert((a.w.w) * (b.z.w) == a.w.w * b.z.w);
    assert((g24) + (a.w.w * b.z.w) == g27);
    assert((g25) * (c.x.z) == g28);
    assert((g26) * (c.x.z) == g29);
    assert((g27) * (c.x.z) == g30);
    assert((g27) * (c.x.z) == g30);
    assert((g22) + (g30) == g40);
    assert((a.x.w) * (b.w.x) == a.x.w * b.w.x);
    assert((a.y.w) * (b.w.y) == a.y.w * b.w.y);
    assert((a.x.w * b.w.x) + (a.y.w * b.w.y) == g41);
    assert((a.z.w) * (b.w.z) == a.z.w * b.w.z);
    assert((g41) + (a.z.w * b.w.z) == g42);
    assert((a.w.w) * (b.w.w) == a.w.w * b.w.w);
    assert((g42) + (a.w.w * b.w.w) == g45);
    assert((g43) * (c.x.w) == g46);
    assert((g44) * (c.x.w) == g47);
    assert((g45) * (c.x.w) == g48);
    assert((g45) * (c.x.w) == g48);
    assert((g40) + (g48) == g63);
    assert((b.x.x) * (c.x.x) == b.x.x * c.x.x);
    assert((b.y.x) * (c.x.y) == b.y.x * c.x.y);
    assert((b.x.x * c.x.x) + (b.y.x * c.x.y) == g64);
    assert((b.z.x) * (c.x.z) == b.z.x * c.x.z);
    assert((g64) + (b.z.x * c.x.z) == g65);
    assert((b.w.x) * (c.x.w) == b.w.x * c.x.w);
    assert((g65) + (b.w.x * c.x.w) == g68);
    assert((a.x.w) * (g66) == g69);
    assert((a.x.w) * (g67) == g70);
    assert((a.x.w) * (g68) == g71);
    assert((a.x.w) * (g68) == g71);
    assert((b.x.y) * (c.x.x) == b.x.y * c.x.x);
    assert((b.y.y) * (c.x.y) == b.y.y * c.x.y);
    assert((b.x.y * c.x.x) + (b.y.y * c.x.y) == g72);
    assert((b.z.y) * (c.x.z) == b.z.y * c.x.z);
    assert((g72) + (b.z.y * c.x.z) == g73);
    assert((b.w.y) * (c.x.w) == b.w.y * c.x.w);
    assert((g73) + (b.w.y * c.x.w) == g76);
    assert((a.y.w) * (g74) == g77);
    assert((a.y.w) * (g75) == g78);
    assert((a.y.w) * (g76) == g79);
    assert((a.y.w) * (g76) == g79);
    assert((g71) + (g79) == g83);
    assert((b.x.z) * (c.x.x) == b.x.z * c.x.x);
    assert((b.y.z) * (c.x.y) == b.y.z * c.x.y);
    assert((b.x.z * c.x.x) + (b.y.z * c.x.y) == g84);
    assert((b.z.z) * (c.x.z) == b.z.z * c.x.z);
    assert((g84) + (b.z.z * c.x.z) == g85);
    assert((b.w.z) * (c.x.w) == b.w.z * c.x.w);
    assert((g85) + (b.w.z * c.x.w) == g88);
    assert((a.z.w) * (g86) == g89);
    assert((a.z.w) * (g87) == g90);
    assert((a.z.w) * (g88) == g91);
    assert((a.z.w) * (g88) == g91);
    assert((g83) + (g91) == g95);
    assert((b.x.w) * (c.x.x) == b.x.w * c.x.x);
    assert((b.y.w) * (c.x.y) == b.y.w * c.x.y);
    assert((b.x.w * c.x.x) + (b.y.w * c.x.y) == g96);
    assert((b.z.w) * (c.x.z) == b.z.w * c.x.z);
    assert((g96) + (b.z.w * c.x.z) == g97);
    assert((b.w.w) * (c.x.w) == b.w.w * c.x.w);
    assert((g97) + (b.w.w * c.x.w) == g100);
    assert((a.w.w) * (g98) == g49);
    assert((a.w.w) * (g99) == g50);
    assert((a.w.w) * (g100) == g51);
    assert((a.w.w) * (g100) == g51);
    assert((g95) + (g51) == g63);
}

proof fn assoc4_part_x_d(a: M4, b: M4, c: M4)
    ensures
        m4_mul(m4_mul(a, b), c).x.d == m4_mul(a, m4_mul(b, c)).x.d,
{
    assert(a.x.d * (b.x.d * c.x.d) == a.x.d * b.x.d * c.x.d) by (nonlinear_arith);
    assert((a.x.d) * (b.x.d) == a.x.d * b.x.d);
    assert((a.x.d * b.x.d) * (c.x.d) == a.x.d * b.x.d * c.x.d);
    assert((b.x.d) * (c.x.d) == b.x.d * c.x.d);
    assert((a.x.d) * (b.x.d * c.x.d) == a.x.d * b.x.d * c.x.d);
}

proof fn assoc4_part_y_x(a: M4, b: M4, c: M4)
    ensures
        m4_mul(m4_mul(a, b), c).y.x == m4_mul(a, m4_mul(b, c)).y.x,
{
    let g0: int = a.x.x * b.x.x + a.y.x * b.x.y;
    let g1: int = g0 + a.z.x * b.x.z;
    let g2: int = a.w.x * b.x.w + a.x.x * b.x.x;
    let g3: int = g2 + a.y.x * b.x.y;
    let g4: int = g3 + a.z.x * b.x.z;
    let g5: int = a.w.x * b.x.w * c.y.x + a.x.x * b.x.x * c.y.x;
    let g6: int = g5 + a.y.x * b.x.y * c.y.x;
    let g7: int = g6 + a.z.x * b.x.z * c.y.x;
    let g8: int = a.x.x * b.y.x + a.y.x * b.y.y;
    let g9: int = g8 + a.z.x * b.y.z;
    let g10: int = a.w.x * b.y.w + a.x.x * b.y.x;
    let g11: int = g10 + a.y.x * b.y.y;
    let g12: int = g11 + a.z.x * b.y.z;
    let g13: int = a.w.x * b.y.w * c.y.y + a.x.x * b.y.x * c.y.y;
    let g14: int = g13 + a.y.x * b.y.y * c.y.y;
    let g15: int = g14 + a.z.x * b.y.z * c.y.y;
    let g16: int = a.w.x * b.x.w * c.y.x + a.w.x * b.y.w * c.y.y;
    let g17: int = g16 + a.x.x * b.x.x * c.y.x;
    let g18: int = g17 + a.x.x * b.y.x * c.y.y;
    let g19: int = g18 + a.y.x * b.x.y * c.y.x;
    let g20: int = g19 + a.y.x * b.y.y * c.y.y;
    let g21: int = g20 + a.z.x * b.x.z * c.y.x;
    let g22: int = g21 + a.z.x * b.y.z * c.y.y;
    let g23: int = a.x.x * b.z.x + a.y.x * b.z.y;
    let g24: int = g23 + a.z.x * b.z.z;
    let g25: int = a.w.x * b.z.w + a.x.x * b.z.x;
    let g26: int = g25 + a.y.x * b.z.y;
    let g27: int = g26 + a.z.x * b.z.z;
    let g28: int = a.w.x * b.z.w * c.y.z + a.x.x * b.z.x * c.y.z;
    let g29: int = g28 + a.y.x * b.z.y * c.y.z;
    let g30: int = g29 + a.z.x * b.z.z * c.y.z;
    let g31: int = g16 + a.w.x * b.z.w * c.y.z;
    let g32: int = g31 + a.x.x * b.x.x * c.y.x;
    let g33: int = g32 + a.x.x * b.y.x * c.y.y;
    let g34: int = g33 + a.x.x * b.z.x * c.y.z;
    let g35: int = g34 + a.y.x * b.x.y * c.y.x;
    let g36: int = g35 + a.y.x * b.y.y * c.y.y;
    let g37: int = g36 + a.y.x * b.z.y * c.y.z;
    let g38: int = g37 + a.z.x * b.x.z * c.y.x;
    let g39: int = g38 + a.z.x * b.y.z * c.y.y;
    let g40: int = g39 + a.z.x * b.z.z * c.y.z;
    let g41: int = a.x.x * b.w.x + a.y.x * b.w.y;
    let g42: int = g41 + a.z.x * b.w.z;
    let g43: int = a.w.x * b.w.w + a.x.x * b.w.x;
    let g44: int = g43 + a.y.x * b.w.y;
    let g45: int = g44 + a.z.x * b.w.z;
    let g46: int = a.w.x * b.w.w * c.y.w + a.x.x * b.w.x * c.y.w;
    let g47: int = g46 + a.y.x * b.w.y * c.y.w;
    let g48: int = g47 + a.z.x * b.w.z * c.y.w;
    let g49: int = a.w.x * b.w.w * c.y.w + a.w.x * b.x.w * c.y.x;
    let g50: int = g49 + a.w.x * b.y.w * c.y.y;
    let g51: int = g50 + a.w.x * b.z.w * c.y.z;
    let g52: int = g51 + a.x.x * b.w.x * c.y.w;
    let g53: int = g52 + a.x.x * b.x.x * c.y.x;
    let g54: int = g53 + a.x.x * b.y.x * c.y.y;
    let g55: int = g54 + a.x.x * b.z.x * c.y.z;
    let g56: int = g55 + a.y.x * b.w.y * c.y.w;
    let g57: int = g56 + a.y.x * b.x.y * c.y.x;
    let g58: int = g57 + a.y.x * b.y.y * c.y.y;
    let g59: int = g58 + a.y.x * b.z.y * c.y.z;
    let g60: int = g59 + a.z.x * b.w.z * c.y.w;
    let g61: int = g60 + a.z.x * b.x.z * c.y.x;
    let g62: int = g61 + a.z.x * b.y.z * c.y.y;
    let g63: int = g62 + a.z.x * b.z.z * c.y.z;
    let g64: int = b.x.x * c.y.x + b.y.x * c.y.y;
    let g65: int = g64 + b.z.x * c.y.z;
    let g66: int = b.w.x * c.y.w + b.x.x * c.y.x;
    let g67: int = g66 + b.y.x * c.y.y;
    let g68: int = g67 + b.z.x * c.y.z;
    let g69: int = a.x.x * b.w.x * c.y.w + a.x.x * b.x.x * c.y.x;
    let g70: int = g69 + a.x.x * b.y.x * c.y.y;
    let g71: int = g70 + a.x.x * b.z.x * c.y.z;
    let g72: int = b.x.y * c.y.x + b.y.y * c.y.y;
    let g73: int = g72 + b.z.y * c.y.z;
    let g74: int = b.w.y * c.y.w + b.x.y * c.y.x;
    let g75: int = g74 + b.y.y * c.y.y;
    let g76: int = g75 + b.z.y * c.y.z;
    let g77: int = a.y.x * b.w.y * c.y.w + a.y.x * b.x.y * c.y.x;
    let g78: int = g77 + a.y.x * b.y.y * c.y.y;
    let g79: int = g78 + a.y.x * b.z.y * c.y.z;
    let g80: int = g71 + a.y.x * b.w.y * c.y.w;
    let g81: int = g80 + a.y.x * b.x.y * c.y.x;
    let g82: int = g81 + a.y.x * b.y.y * c.y.y;
    let g83: int = g82 + a.y.x * b.z.y * c.y.z;
    let g84: int = b.x.z * c.y.x + b.y.z * c.y.y;
    let g85: int = g84 + b.z.z * c.y.z;
    let g86: int = b.w.z * c.y.w + b.x.z * c.y.x;
    let g87: int = g86 + b.y.z * c.y.y;
    let g88: int = g87 + b.z.z * c.y.z;
    let g89: int = a.z.x * b.w.z * c.y.w + a.z.x * b.x.z * c.y.x;
    let g90: int = g89 + a.z.x * b.y.z * c.y.y;
    let g91: int = g90 + a.z.x * b.z.z * c.y.z;
    let g92: int = g83 + a.z.x * b.w.z * c.y.w;
    let g93: int = g92 + a.z.x * b.x.z * c.y.x;
    let g94: int = g93 + a.z.x * b.y.z * c.y.y;
    let g95: int = g94 + a.z.x * b.z.z * c.y.z;
    let g96: int = b.x.w * c.y.x + b.y.w * c.y.y;
    let g97: int = g96 + b.z.w * c.y.z;
    let g98: int = b.w.w * c.y.w + b.x.w * c.y.x;
    let g99: int = g98 + b.y.w * c.y.y;
    let g100: int = g99 + b.z.w * c.y.z;
    assert((g3 + a.z.x * b.x.z) * (c.y.x) == g3 * (c.y.x) + (a.z.x * b.x.z) * (c.y.x)
        && (g2 + a.y.x * b.x.y) * (c.y.x) == g2 * (c.y.x) + (a.y.x * b.x.y) * (c.y.x)
        && (a.w.x * b.x.w + a.x.x * b.x.x) * (c.y.x) == a.w.x * b.x.w * (c.y.x) + (a.x.x * b.x.x) * (c.y.x)
    ) by (nonlinear_arith);
    assert((g11 + a.z.x * b.y.z) * (c.y.y) == g11 * (c.y.y) + (a.z.x * b.y.z) * (c.y.y)
        && (g10 + a.y.x * b.y.y) * (c.y.y) == g10 * (c.y.y) + (a.y.x * b.y.y) * (c.y.y)
        && (a.w.x * b.y.w + a.x.x * b.y.x) * (c.y.y) == a.w.x * b.y.w * (c.y.y) + (a.x.x * b.y.x) * (c.y.y)
    ) by (nonlinear_arith);
    assert((g26 + a.z.x * b.z.z) * (c.y.z) == g26 * (c.y.z) + (a.z.x * b.z.z) * (c.y.z)
        && (g25 + a.y.x * b.z.y) * (c.y.z) == g25 * (c.y.z) + (a.y.x * b.z.y) * (c.y.z)
        && (a.w.x * b.z.w + a.x.x * b.z.x) * (c.y.z) == a.w.x * b.z.w * (c.y.z) + (a.x.x * b.z.x) * (c.y.z)
    ) by (nonlinear_arith);
    assert((g44 + a.z.x * b.w.z) * (c.y.w) == g44 * (c.y.w) + (a.z.x * b.w.z) * (c.y.w)
        && (g43 + a.y.x * b.w.y) * (c.y.w) == g43 * (c.y.w) + (a.y.x * b.w.y) * (c.y.w)
        && (a.w.x * b.w.w + a.x.x * b.w.x) * (c.y.w) == a.w.x * b.w.w * (c.y.w) + (a.x.x * b.w.x) * (c.y.w)
    ) by (nonlinear_arith);
    assert((a.x.x) * (g67 + b.z.x * c.y.z) == (a.x.x) * (g67) + (a.x.x) * (b.z.x * c.y.z)
        && (a.x.x) * (g66 + b.y.x * c.y.y) == (a.x.x) * (g66) + (a.x.x) * (b.y.x * c.y.y)
        && (a.x.x) * (b.w.x * c.y.w + b.x.x * c.y.x) == (a.x.x) * (b.w.x * c.y.w) + (a.x.x) * (b.x.x * c.y.x)
    ) by (nonlinear_arith);
    assert(a.x.x * (b.w.x * c.y.w) == a.x.x * b.w.x * c.y.w
        && a.x.x * (b.x.x * c.y.x) == a.x.x * b.x.x * c.y.x
        && a.x.x * (b.y.x * c.y.y) == a.x.x * b.y.x * c.y.y
        && a.x.x * (b.z.x * c.y.z) == a.x.x * b.z.x * c.y.z
    ) by (nonlinear_arith);
    assert((a.y.x) * (g75 + b.z.y * c.y.z) == (a.y.x) * (g75) + (a.y.x) * (b.z.y * c.y.z)
        && (a.y.x) * (g74 + b.y.y * c.y.y) == (a.y.x) * (g74) + (a.y.x) * (b.y.y * c.y.y)
        && (a.y.x) * (b.w.y * c.y.w + b.x.y * c.y.x) == (a.y.x) * (b.w.y * c.y.w) + (a.y.x) * (b.x.y * c.y.x)
    ) by (nonlinear_arith);
    assert(a.y.x * (b.w.y * c.y.w) == a.y.x * b.w.y * c.y.w
        && a.y.x * (b.x.y * c.y.x) == a.y.x * b.x.y * c.y.x
        && a.y.x * (b.y.y * c.y.y) == a.y.x * b.y.y * c.y.y
        && a.y.x * (b.z.y * c.y.z) == a.y.x * b.z.y * c.y.z
    ) by (nonlinear_arith);
    assert((a.z.x) * (g87 + b.z.z * c.y.z) == (a.z.x) * (g87) + (a.z.x) * (b.z.z * c.y.z)
        && (a.z.x) * (g86 + b.y.z * c.y.y) == (a.z.x) * (g86) + (a.z.x) * (b.y.z * c.y.y)
        && (a.z.x) * (b.w.z * c.y.w + b.x.z * c.y.x) == (a.z.x) * (b.w.z * c.y.w) + (a.z.x) * (b.x.z * c.y.x)
    ) by (nonlinear_arith);
    assert(a.z.x * (b.w.z * c.y.w) == a.z.x * b.w.z * c.y.w
        && a.z.x * (b.x.z * c.y.x) == a.z.x * b.x.z * c.y.x
        && a.z.x * (b.y.z * c.y.y) == a.z.x * b.y.z * c.y.y
        && a.z.x * (b.z.z * c.y.z) == a.z.x * b.z.z * c.y.z
    ) by (nonlinear_arith);
    assert((a.w.x) * (g99 + b.z.w * c.y.z) == (a.w.x) * (g99) + (a.w.x) * (b.z.w * c.y.z)
        && (a.w.x) * (g98 + b.y.w * c.y.y) == (a.w.x) * (g98) + (a.w.x) * (b.y.w * c.y.y)
        && (a.w.x) * (b.w.w * c.y.w + b.x.w * c.y.x) == (a.w.x) * (b.w.w * c.y.w) + (a.w.x) * (b.x.w * c.y.x)
    ) by (nonlinear_arith);
    assert(a.w.x * (b.w.w * c.y.w) == a.w.x * b.w.w * c.y.w
        && a.w.x * (b.x.w * c.y.x) == a.w.x * b.x.w * c.y.x
        && a.w.x * (b.y.w * c.y.y) == a.w.x * b.y.w * c.y.y
        && a.w.x * (b.z.w * c.y.z) == a.w.x * b.z.w * c.y.z
    ) by (nonlinear_arith);
    assert((a.x.x) * (b.x.x) == a.x.x * b.x.x);
    assert((a.y.x) * (b.x.y) == a.y.x * b.x.y);
    assert((a.x.x * b.x.x) + (a.y.x * b.x.y) == g0);
    assert((a.z.x) * (b.x.z) == a.z.x * b.x.z);
    assert((g0) + (a.z.x * b.x.z) == g1);
    assert((a.w.x) * (b.x.w) == a.w.x * b.x.w);
    assert((g1) + (a.w.x * b.x.w) == g4);
    assert((g2) * (c.y.x) == g5);
    assert((g3) * (c.y.x) == g6);
    assert((g4) * (c.y.x) == g7);
    assert((g4) * (c.y.x) == g7);
    assert((a.x.x) * (b.y.x) == a.x.x * b.y.x);
    assert((a.y.x) * (b.y.y) == a.y.x * b.y.y);
    assert((a.x.x * b.y.x) + (a.y.x * b.y.y) == g8);
    assert((a.z.x) * (b.y.z) == a.z.x * b.y.z);
    assert((g8) + (a.z.x * b.y.z) == g9);
    assert((a.w.x) * (b.y.w) == a.w.x * b.y.w);
    assert((g9) + (a.w.x * b.y.w) == g12);
    assert((g10) * (c.y.y) == g13);
    assert((g11) * (c.y.y) == g14);
    assert((g12) * (c.y.y) == g15);
    assert((g12) * (c.y.y) == g15);
    assert((g7) + (g15) == g22);
    assert((a.x.x) * (b.z.x) == a.x.x * b.z.x);
    assert((a.y.x) * (b.z.y) == a.y.x * b.z.y);
    assert((a.x.x * b.z.x) + (a.y.x * b.z.y) == g23);
    assert((a.z.x) * (b.z.z) == a.z.x * b.z.z);
    assert((g23) + (a.z.x * b.z.z) == g24);
    assert((a.w.x) * (b.z.w) == a.w.x * b.z.w);
    assert((g24) + (a.w.x * b.z.w) == g27);
    assert((g25) * (c.y.z) == g28);
    assert((g26) * (c.y.z) == g29);
    assert((g27) * (c.y.z) == g30);
    assert((g27) * (c.y.z) == g30);
    assert((g22) + (g30) == g40);
    assert((a.x.x) * (b.w.x) == a.x.x * b.w.x);
    assert((a.y.x) * (b.w.y) == a.y.x * b.w.y);
    assert((a.x.x * b.w.x) + (a.y.x * b.w.y) == g41);
    assert((a.z.x) * (b.w.z) == a.z.x * b.w.z);
    assert((g41) + (a.z.x * b.w.z) == g42);
    assert((a.w.x) * (b.w.w) == a.w.x * b.w.w);
    assert((g42) + (a.w.x * b.w.w) == g45);
    assert((g43) * (c.y.w) == g46);
    assert((g44) * (c.y.w) == g47);
    assert((g45) * (c.y.w) == g48);
    assert((g45) * (c.y.w) == g48);
    assert((g40) + (g48) == g63);
    assert((b.x.x) * (c.y.x) == b.x.x * c.y.x);
    assert((b.y.x) * (c.y.y) == b.y.x * c.y.y);
    assert((b.x.x * c.y.x) + (b.y.x * c.y.y) == g64);
    assert((b.z.x) * (c.y.z) == b.z.x * c.y.z);
    assert((g64) + (b.z.x * c.y.z) == g65);
    assert((b.w.x) * (c.y.w) == b.w.x * c.y.w);
    assert((g65) + (b.w.x * c.y.w) == g68);
    assert((a.x.x) * (g66) == g69);
    assert((a.x.x) * (g67) == g70);
    assert((a.x.x) * (g68) == g71);
    assert((a.x.x) * (g68) == g71);
    assert((b.x.y) * (c.y.x) == b.x.y * c.y.x);
    assert((b.y.y) * (c.y.y) == b.y.y * c.y.y);
    assert((b.x.y * c.y.x) + (b.y.y * c.y.y) == g72);
    assert((b.z.y) * (c.y.z) == b.z.y * c.y.z);
    assert((g72) + (b.z.y * c.y.z) == g73);
    assert((b.w.y) * (c.y.w) == b.w.y * c.y.w);
    assert((g73) + (b.w.y * c.y.w) == g76);
    assert((a.y.x) * (g74) == g77);
    assert((a.y.x) * (g75) == g78);
    assert((a.y.x) * (g76) == g79);
    assert((a.y.x) * (g76) == g79);
    assert((g71) + (g79) == g83);
    assert((b.x.z) * (c.y.x) == b.x.z * c.y.x);
    assert((b.y.z) * (c.y.y) == b.y.z * c.y.y);
    assert((b.x.z * c.y.x) + (b.y.z * c.y.y) == g84);
    assert((b.z.z) * (c.y.z) == b.z.z * c.y.z);
    assert((g84) + (b.z.z * c.y.z) == g85);
    assert((b.w.z) * (c.y.w) == b.w.z * c.y.w);
    assert((g85) + (b.w.z * c.y.w) == g88);
    assert((a.z.x) * (g86) == g89);
    assert((a.z.x) * (g87) == g90);
    assert((a.z.x) * (g88) == g91);
    assert((a.z.x) * (g88) == g91);
    assert((g83) + (g91) == g95);
    assert((b.x.w) * (c.y.x) == b.x.w * c.y.x);
    assert((b.y.w) * (c.y.y) == b.y.w * c.y.y);
    assert((b.x.w * c.y.x) + (b.y.w * c.y.y) == g96);
    assert((b.z.w) * (c.y.z) == b.z.w * c.y.z);
    assert((g96) + (b.z.w * c.y.z) == g97);
    assert((b.w.w) * (c.y.w) == b.w.w * c.y.w);
    assert((g97) + (b.w.w * c.y.w) == g100);
    assert((a.w.x) * (g98) == g49);
    assert((a.w.x) * (g99) == g50);
    assert((a.w.x) * (g100) == g51);
    assert((a.w.x) * (g100) == g51);
    assert((g95) + (g51) == g63);
}

proof fn assoc4_part_y_y(a: M4, b: M4, c: M4)
    ensures
        m4_mul(m4_mul(a, b), c).y.y == m4_mul(a, m4_mul(b, c)).y.y,
{
    let g0: int = a.x.y * b.x.x + a.y.y * b.x.y;
    let g1: int = g0 + a.z.y * b.x.z;
    let g2: int = a.w.y * b.x.w + a.x.y * b.x.x;
    let g3: int = g2 + a.y.y * b.x.y;
    let g4: int = g3 + a.z.y * b.x.z;
    let g5: int = a.w.y * b.x.w * c.y.x + a.x.y * b.x.x * c.y.x;
    let g6: int = g5 + a.y.y * b.x.y * c.y.x;
    let g7: int = g6 + a.z.y * b.x.z * c.y.x;
    let g8: int = a.x.y * b.y.x + a.y.y * b.y.y;
    let g9: int = g8 + a.z.y * b.y.z;
    let g10: int = a.w.y * b.y.w + a.x.y * b.y.x;
    let g11: int = g10 + a.y.y * b.y.y;
    let g12: int = g11 + a.z.y * b.y.z;
    let g13: int = a.w.y * b.y.w * c.y.y + a.x.y * b.y.x * c.y.y;
    let g14: int = g13 + a.y.y * b.y.y * c.y.y;
    let g15: int = g14 + a.z.y * b.y.z * c.y.y;
    let g16: int = a.w.y * b.x.w * c.y.x + a.w.y * b.y.w * c.y.y;
    let g17: int = g16 + a.x.y * b.x.x * c.y.x;
    let g18: int = g17 + a.x.y * b.y.x * c.y.y;
    let g19: int = g18 + a.y.y * b.x.y * c.y.x;
    let g20: int = g19 + a.y.y * b.y.y * c.y.y;
    let g21: int = g20 + a.z.y * b.x.z * c.y.x;
    let g22: int = g21 + a.z.y * b.y.z * c.y.y;
    let g23: int = a.x.y * b.z.x + a.y.y * b.z.y;
    let g24: int = g23 + a.z.y * b.z.z;
    let g25: int = a.w.y * b.z.w + a.x.y * b.z.x;
    let g26: int = g25 + a.y.y * b.z.y;
    let g27: int = g26 + a.z.y * b.z.z;
    let g28: int = a.w.y * b.z.w * c.y.z + a.x.y * b.z.x * c.y.z;
    let g29: int = g28 + a.y.y * b.z.y * c.y.z;
    let g30: int = g29 + a.z.y * b.z.z * c.y.z;
    let g31: int = g16 + a.w.y * b.z.w * c.y.z;
    let g32: int = g31 + a.x.y * b.x.x * c.y.x;
    let g33: int = g32 + a.x.y * b.y.x * c.y.y;
    let g34: int = g33 + a.x.y * b.z.x * c.y.z;
    let g35: int = g34 + a.y.y * b.x.y * c.y.x;
    let g36: int = g35 + a.y.y * b.y.y * c.y.y;
    let g37: int = g36 + a.y.y * b.z.y * c.y.z;
    let g38: int = g37 + a.z.y * b.x.z * c.y.x;
    let g39: int = g38 + a.z.y * b.y.z * c.y.y;
    let g40: int = g39 + a.z.y * b.z.z * c.y.z;
    let g41: int = a.x.y * b.w.x + a.y.y * b.w.y;
    let g42: int = g41 + a.z.y * b.w.z;
    let g43: int = a.w.y * b.w.w + a.x.y * b.w.x;
    let g44: int = g43 + a.y.y * b.w.y;
    let g45: int = g44 + a.z.y * b.w.z;
    let g46: int = a.w.y * b.w.w * c.y.w + a.x.y * b.w.x * c.y.w;
    let g47: int = g46 + a.y.y * b.w.y * c.y.w;
    let g48: int = g47 + a.z.y * b.w.z * c.y.w;
    let g49: int = a.w.y * b.w.w * c.y.w + a.w.y * b.x.w * c.y.x;
    let g50: int = g49 + a.w.y * b.y.w * c.y.y;
    let g51: int = g50 + a.w.y * b.z.w * c.y.z;
    let g52: int = g51 + a.x.y * b.w.x * c.y.w;
    let g53: int = g52 + a.x.y * b.x.x * c.y.x;
    let g54: int = g53 + a.x.y * b.y.x * c.y.y;
    let g55: int = g54 + a.x.y * b.z.x * c.y.z;
    let g56: int = g55 + a.y.y * b.w.y * c.y.w;
    let g57: int = g56 + a.y.y * b.x.y * c.y.x;
    let g58: int = g57 + a.y.y * b.y.y * c.y.y;
    let g59: int = g58 + a.y.y * b.z.y * c.y.z;
    let g60: int = g59 + a.z.y * b.w.z * c.y.w;
    let g61: int = g60 + a.z.y * b.x.z * c.y.x;
    let g62: int = g61 + a.z.y * b.y.z * c.y.y;
    let g63: int = g62 + a.z.y * b.z.z * c.y.z;
    let g64: int = b.x.x * c.y.x + b.y.x * c.y.y;
    let g65: int = g64 + b.z.x * c.y.z;
    let g66: int = b.w.x * c.y.w + b.x.x * c.y.x;
    let g67: int = g66 + b.y.x * c.y.y;
    let g68: int = g67 + b.z.x * c.y.z;
    let g69: int = a.x.y * b.w.x * c.y.w + a.x.y * b.x.x * c.y.x;
    let g70: int = g69 + a.x.y * b.y.x * c.y.y;
    let g71: int = g70 + a.x.y * b.z.x * c.y.z;
    let g72: int = b.x.y * c.y.x + b.y.y * c.y.y;
    let g73: int = g72 + b.z.y * c.y.z;
    let g74: int = b.w.y * c.y.w + b.x.y * c.y.x;
    let g75: int = g74 + b.y.y * c.y.y;
    let g76: int = g75 + b.z.y * c.y.z;
    let g77: int = a.y.y * b.w.y * c.y.w + a.y.y * b.x.y * c.y.x;
    let g78: int = g77 + a.y.y * b.y.y * c.y.y;
    let g79: int = g78 + a.y.y * b.z.y * c.y.z;
    let g80: int = g71 + a.y.y * b.w.y * c.y.w;
    let g81: int = g80 + a.y.y * b.x.y * c.y.x;
    let g82: int = g81 + a.y.y * b.y.y * c.y.y;
    let g83: int = g82 + a.y.y * b.z.y * c.y.z;
    let g84: int = b.x.z * c.y.x + b.y.z * c.y.y;
    let g85: int = g84 + b.z.z * c.y.z;
    let g86: int = b.w.z * c.y.w + b.x.z * c.y.x;
    let g87: int = g86 + b.y.z * c.y.y;
    let g88: int = g87 + b.z.z * c.y.z;
    let g89: int = a.z.y * b.w.z * c.y.w + a.z.y * b.x.z * c.y.x;
    let g90: int = g89 + a.z.y * b.y.z * c.y.y;
    let g91: int = g90 + a.z.y * b.z.z * c.y.z;
    let g92: int = g83 + a.z.y * b.w.z * c.y.w;
    let g93: int = g92 + a.z.y * b.x.z * c.y.x;
    let g94: int = g93 + a.z.y * b.y.z * c.y.y;
    let g95: int = g94 + a.z.y * b.z.z * c.y.z;
    let g96: int = b.x.w * c.y.x + b.y.w * c.y.y;
    let g97: int = g96 + b.z.w * c.y.z;
    let g98: int = b.w.w * c.y.w + b.x.w * c.y.x;
    let g99: int = g98 + b.y.w * c.y.y;
    let g100: int = g99 + b.z.w * c.y.z;
    assert((g3 + a.z.y * b.x.z) * (c.y.x) == g3 * (c.y.x) + (a.z.y * b.x.z) * (c.y.x)
        && (g2 + a.y.y * b.x.y) * (c.y.x) == g2 * (c.y.x) + (a.y.y * b.x.y) * (c.y.x)
        && (a.w.y * b.x.w + a.x.y * b.x.x) * (c.y.x) == a.w.y * b.x.w * (c.y.x) + (a.x.y * b.x.x) * (c.y.x)
    ) by (nonlinear_arith);
    assert((g11 + a.z.y * b.y.z) * (c.y.y) == g11 * (c.y.y) + (a.z.y * b.y.z) * (c.y.y)
        && (g10 + a.y.y * b.y.y) * (c.y.y) == g10 * (c.y.y) + (a.y.y * b.y.y) * (c.y.y)
        && (a.w.y * b.y.w + a.x.y * b.y.x) * (c.y.y) == a.w.y * b.y.w * (c.y.y) + (a.x.y * b.y.x) * (c.y.y)
    ) by (nonlinear_arith);
    assert((g26 + a.z.y * b.z.z) * (c.y.z) == g26 * (c.y.z) + (a.z.y * b.z.z) * (c.y.z)
        && (g25 + a.y.y * b.z.y) * (c.y.z) == g25 * (c.y.z) + (a.y.y * b.z.y) * (c.y.z)
        && (a.w.y * b.z.w + a.x.y * b.z.x) * (c.y.z) == a.w.y * b.z.w * (c.y.z) + (a.x.y * b.z.x) * (c.y.z)
    ) by (nonlinear_arith);
    assert((g44 + a.z.y * b.w.z) * (c.y.w) == g44 * (c.y.w) + (a.z.y * b.w.z) * (c.y.w)
        && (g43 + a.y.y * b.w.y) * (c.y.w) == g43 * (c.y.w) + (a.y.y * b.w.y) * (c.y.w)
        && (a.w.y * b.w.w + a.x.y * b.w.x) * (c.y.w) == a.w.y * b.w.w * (c.y.w) + (a.x.y * b.w.x) * (c.y.w)
    ) by (nonlinear_arith);
    assert((a.x.y) * (g67 + b.z.x * c.y.z) == (a.x.y) * (g67) + (a.x.y) * (b.z.x * c.y.z)
        && (a.x.y) * (g66 + b.y.x * c.y.y) == (a.x.y) * (g66) + (a.x.y) * (b.y.x * c.y.y)
        && (a.x.y) * (b.w.x * c.y.w + b.x.x * c.y.x) == (a.x.y) * (b.w.x * c.y.w) + (a.x.y) * (b.x.x * c.y.x)
    ) by (nonlinear_arith);
    assert(a.x.y * (b.w.x * c.y.w) == a.x.y * b.w.x * c.y.w
        && a.x.y * (b.x.x * c.y.x) == a.x.y * b.x.x * c.y.x
        && a.x.y * (b.y.x * c.y.y) == a.x.y * b.y.x * c.y.y
        && a.x.y * (b.z.x * c.y.z) == a.x.y * b.z.x * c.y.z
    ) by (nonlinear_arith);
    assert((a.y.y) * (g75 + b.z.y * c.y.z) == (a.y.y) * (g75) + (a.y.y) * (b.z.y * c.y.z)
        && (a.y.y) * (g74 + b.y.y * c.y.y) == (a.y.y) * (g74) + (a.y.y) * (b.y.y * c.y.y)
        && (a.y.y) * (b.w.y * c.y.w + b.x.y * c.y.x) == (a.y.y) * (b.w.y * c.y.w) + (a.y.y) * (b.x.y * c.y.x)
    ) by (nonlinear_arith);
    assert(a.y.y * (b.w.y * c.y.w) == a.y.y * b.w.y * c.y.w
        && a.y.y * (b.x.y * c.y.x) == a.y.y * b.x.y * c.y.x
        && a.y.y * (b.y.y * c.y.y) == a.y.y * b.y.y * c.y.y
        && a.y.y * (b.z.y * c.y.z) == a.y.y * b.z.y * c.y.z
    ) by (nonlinear_arith);
    assert((a.z.y) * (g87 + b.z.z * c.y.z) == (a.z.y) * (g87) + (a.z.y) * (b.z.z * c.y.z)
        && (a.z.y) * (g86 + b.y.z * c.y.y) == (a.z.y) * (g86) + (a.z.y) * (b.y.z * c.y.y)
        && (a.z.y) * (b.w.z * c.y.w + b.x.z * c.y.x) == (a.z.y) * (b.w.z * c.y.w) + (a.z.y) * (b.x.z * c.y.x)
    ) by (nonlinear_arith);
    assert(a.z.y * (b.w.z * c.y.w) == a.z.y * b.w.z * c.y.w
        && a.z.y * (b.x.z * c.y.x) == a.z.y * b.x.z * c.y.x
        && a.z.y * (b.y.z * c.y.y) == a.z.y * b.y.z * c.y.y
        && a.z.y * (b.z.z * c.y.z) == a.z.y * b.z.z * c.y.z
    ) by (nonlinear_arith);
    assert((a.w.y) * (g99 + b.z.w * c.y.z) == (a.w.y) * (g99) + (a.w.y) * (b.z.w * c.y.z)
        && (a.w.y) * (g98 + b.y.w * c.y.y) == (a.w.y) * (g98) + (a.w.y) * (b.y.w * c.y.y)
        && (a.w.y) * (b.w.w * c.y.w + b.x.w * c.y.x) == (a.w.y) * (b.w.w * c.y.w) + (a.w.y) * (b.x.w * c.y.x)
    ) by (nonlinear_arith);
    assert(a.w.y * (b.w.w * c.y.w) == a.w.y * b.w.w * c.y.w
        && a.w.y * (b.x.w * c.y.x) == a.w.y * b.x.w * c.y.x
        && a.w.y * (b.y.w * c.y.y) == a.w.y * b.y.w * c.y.y
        && a.w.y * (b.z.w * c.y.z) == a.w.y * b.z.w * c.y.z
    ) by (nonlinear_arith);
    assert((a.x.y) * (b.x.x) == a.x.y * b.x.x);
    assert((a.y.y) * (b.x.y) == a.y.y * b.x.y);
    assert((a.x.y * b.x.x) + (a.y.y * b.x.y) == g0);
    assert((a.z.y) * (b.x.z) == a.z.y * b.x.z);
    assert((g0) + (a.z.y * b.x.z) == g1);
    assert((a.w.y) * (b.x.w) == a.w.y * b.x.w);
    assert((g1) + (a.w.y * b.x.w) == g4);
    assert((g2) * (c.y.x) == g5);
    assert((g3) * (c.y.x) == g6);
    assert((g4) * (c.y.x) == g7);
    assert((g4) * (c.y.x) == g7);
    assert((a.x.y) * (b.y.x) == a.x.y * b.y.x);
    assert((a.y.y) * (b.y.y) == a.y.y * b.y.y);
    assert((a.x.y * b.y.x) + (a.y.y * b.y.y) == g8);
    assert((a.z.y) * (b.y.z) == a.z.y * b.y.z);
    assert((g8) + (a.z.y * b.y.z) == g9);
    assert((a.w.y) * (b.y.w) == a.w.y * b.y.w);
    assert((g9) + (a.w.y * b.y.w) == g12);
    assert((g10) * (c.y.y) == g13);
    assert((g11) * (c.y.y) == g14);
    assert((g12) * (c.y.y) == g15);
    assert((g12) * (c.y.y) == g15);
    assert((g7) + (g15) == g22);
    assert((a.x.y) * (b.z.x) == a.x.y * b.z.x);
    assert((a.y.y) * (b.z.y) == a.y.y * b.z.y);
    assert((a.x.y * b.z.x) + (a.y.y * b.z.y) == g23);
    assert((a.z.y) * (b.z.z) == a.z.y * b.z.z);
    assert((g23) + (a.z.y * b.z.z) == g24);
    assert((a.w.y) * (b.z.w) == a.w.y * b.z.w);
    assert((g24) + (a.w.y * b.z.w) == g27);
    assert((g25) * (c.y.z) == g28);
    assert((g26) * (c.y.z) == g29);
    assert((g27) * (c.y.z) == g30);
    assert((g27) * (c.y.z) == g30);
    assert((g22) + (g30) == g40);
    assert((a.x.y) * (b.w.x) == a.x.y * b.w.x);
    assert((a.y.y) * (b.w.y) == a.y.y * b.w.y);
    assert((a.x.y * b.w.x) + (a.y.y * b.w.y) == g41);
    assert((a.z.y) * (b.w.z) == a.z.y * b.w.z);
    assert((g41) + (a.z.y * b.w.z) == g42);
    assert((a.w.y) * (b.w.w) == a.w.y * b.w.w);
    assert((g42) + (a.w.y * b.w.w) == g45);
    assert((g43) * (c.y.w) == g46);
    assert((g44) * (c.y.w) == g47);
    assert((g45) * (c.y.w) == g48);
    assert((g45) * (c.y.w) == g48);
    assert((g40) + (g48) == g63);
    assert((b.x.x) * (c.y.x) == b.x.x * c.y.x);
    assert((b.y.x) * (c.y.y) == b.y.x * c.y.y);
    assert((b.x.x * c.y.x) + (b.y.x * c.y.y) == g64);
    assert((b.z.x) * (c.y.z) == b.z.x * c.y.z);
    assert((g64) + (b.z.x * c.y.z) == g65);
    assert((b.w.x) * (c.y.w) == b.w.x * c.y.w);
    assert((g65) + (b.w.x * c.y.w) == g68);
    assert((a.x.y) * (g66) == g69);
    assert((a.x.y) * (g67) == g70);
    assert((a.x.y) * (g68) == g71);
    assert((a.x.y) * (g68) == g71);
    assert((b.x.y) * (c.y.x) == b.x.y * c.y.x);
    assert((b.y.y) * (c.y.y) == b.y.y * c.y.y);
    assert((b.x.y * c.y.x) + (b.y.y * c.y.y) == g72);
    assert((b.z.y) * (c.y.z) == b.z.y * c.y.z);
    assert((g72) + (b.z.y * c.y.z) == g73);
    assert((b.w.y) * (c.y.w) == b.w.y * c.y.w);
    assert((g73) + (b.w.y * c.y.w) == g76);
    assert((a.y.y) * (g74) == g77);
    assert((a.y.y) * (g75) == g78);
    assert((a.y.y) * (g76) == g79);
    assert((a.y.y) * (g76) == g79);
    assert((g71) + (g79) == g83);
    assert((b.x.z) * (c.y.x) == b.x.z * c.y.x);
    assert((b.y.z) * (c.y.y) == b.y.z * c.y.y);
    assert((b.x.z * c.y.x) + (b.y.z * c.y.y) == g84);
    assert((b.z.z) * (c.y.z) == b.z.z * c.y.z);
    assert((g84) + (b.z.z * c.y.z) == g85);
    assert((b.w.z) * (c.y.w) == b.w.z * c.y.w);
    assert((g85) + (b.w.z * c.y.w) == g88);
    assert((a.z.y) * (g86) == g89);
    assert((a.z.y) * (g87) == g90);
    assert((a.z.y) * (g88) == g91);
    assert((a.z.y) * (g88) == g91);
    assert((g83) + (g91) == g95);
    assert((b.x.w) * (c.y.x) == b.x.w * c.y.x);
    assert((b.y.w) * (c.y.y) == b.y.w * c.y.y);
    assert((b.x.w * c.y.x) + (b.y.w * c.y.y) == g96);
    assert((b.z.w) * (c.y.z) == b.z.w * c.y.z);
    assert((g96) + (b.z.w * c.y.z) == g97);
    assert((b.w.w) * (c.y.w) == b.w.w * c.y.w);
    assert((g97) + (b.w.w * c.y.w) == g100);
    assert((a.w.y) * (g98) == g49);
    assert((a.w.y) * (g99) == g50);
    assert((a.w.y) * (g100) == g51);
    assert((a.w.y) * (g100) == g51);
    assert((g95) + (g51) == g63);
}

proof fn assoc4_part_y_z(a: M4, b: M4, c: M4)
    ensures
        m4_mul(m4_mul(a, b), c).y.z == m4_mul(a, m4_mul(b, c)).y.z,
{
    let g0: int = a.x.z * b.x.x + a.y.z * b.x.y;
    let g1: int = g0 + a.z.z * b.x.z;
    let g2: int = a.w.z * b.x.w + a.x.z * b.x.x;
    let g3: int = g2 + a.y.z * b.x.y;
    let g4: int = g3 + a.z.z * b.x.z;
    let g5: int = a.w.z * b.x.w * c.y.x + a.x.z * b.x.x * c.y.x;
    let g6: int = g5 + a.y.z * b.x.y * c.y.x;
    let g7: int = g6 + a.z.z * b.x.z * c.y.x;
    let g8: int = a.x.z * b.y.x + a.y.z * b.y.y;
    let g9: int = g8 + a.z.z * b.y.z;
    let g10: int = a.w.z * b.y.w + a.x.z * b.y.x;
    let g11: int = g10 + a.y.z * b.y.y;
    let g12: int = g11 + a.z.z * b.y.z;
    let g13: int = a.w.z * b.y.w * c.y.y + a.x.z * b.y.x * c.y.y;
    let g14: int = g13 + a.y.z * b.y.y * c.y.y;
    let g15: int = g14 + a.z.z * b.y.z * c.y.y;
    let g16: int = a.w.z * b.x.w * c.y.x + a.w.z * b.y.w * c.y.y;
    let g17: int = g16 + a.x.z * b.x.x * c.y.x;
    let g18: int = g17 + a.x.z * b.y.x * c.y.y;
    let g19: int = g18 + a.y.z * b.x.y * c.y.x;
    let g20: int = g19 + a.y.z * b.y.y * c.y.y;
    let g21: int = g20 + a.z.z * b.x.z * c.y.x;
    let g22: int = g21 + a.z.z * b.y.z * c.y.y;
    let g23: int = a.x.z * b.z.x + a.y.z * b.z.y;
    let g24: int = g23 + a.z.z * b.z.z;
    let g25: int = a.w.z * b.z.w + a.x.z * b.z.x;
    let g26: int = g25 + a.y.z * b.z.y;
    let g27: int = g26 + a.z.z * b.z.z;
    let g28: int = a.w.z * b.z.w * c.y.z + a.x.z * b.z.x * c.y.z;
    let g29: int = g28 + a.y.z * b.z.y * c.y.z;
    let g30: int = g29 + a.z.z * b.z.z * c.y.z;
    let g31: int = g16 + a.w.z * b.z.w * c.y.z;
    let g32: int = g31 + a.x.z * b.x.x * c.y.x;
    let g33: int = g32 + a.x.z * b.y.x * c.y.y;
    let g34: int = g33 + a.x.z * b.z.x * c.y.z;
    let g35: int = g34 + a.y.z * b.x.y * c.y.x;
    let g36: int = g35 + a.y.z * b.y.y * c.y.y;
    let g37: int = g36 + a.y.z * b.z.y * c.y.z;
    let g38: int = g37 + a.z.z * b.x.z * c.y.x;
    let g39: int = g38 + a.z.z * b.y.z * c.y.y;
    let g40: int = g39 + a.z.z * b.z.z * c.y.z;
    let g41: int = a.x.z * b.w.x + a.y.z * b.w.y;
    let g42: int = g41 + a.z.z * b.w.z;
    let g43: int = a.w.z * b.w.w + a.x.z * b.w.x;
    let g44: int = g43 + a.y.z * b.w.y;
    let g45: int = g44 + a.z.z * b.w.z;
    let g46: int = a.w.z * b.w.w * c.y.w + a.x.z * b.w.x * c.y.w;
    let g47: int = g46 + a.y.z * b.w.y * c.y.w;
    let g48: int = g47 + a.z.z * b.w.z * c.y.w;
    let g49: int = a.w.z * b.w.w * c.y.w + a.w.z * b.x.w * c.y.x;
    let g50: int = g49 + a.w.z * b.y.w * c.y.y;
    let g51: int = g50 + a.w.z * b.z.w * c.y.z;
    let g52: int = g51 + a.x.z * b.w.x * c.y.w;
    let g53: int = g52 + a.x.z * b.x.x * c.y.x;
    let g54: int = g53 + a.x.z * b.y.x * c.y.y;
    let g55: int = g54 + a.x.z * b.z.x * c.y.z;
    let g56: int = g55 + a.y.z * b.w.y * c.y.w;
    let g57: int = g56 + a.y.z * b.x.y * c.y.x;
    let g58: int = g57 + a.y.z * b.y.y * c.y.y;
    let g59: int = g58 + a.y.z * b.z.y * c.y.z;
    let g60: int = g59 + a.z.z * b.w.z * c.y.w;
    let g61: int = g60 + a.z.z * b.x.z * c.y.x;
    let g62: int = g61 + a.z.z * b.y.z * c.y.y;
    let g63: int = g62 + a.z.z * b.z.z * c.y.z;
    let g64: int = b.x.x * c.y.x + b.y.x * c.y.y;
    let g65: int = g64 + b.z.x * c.y.z;
    let g66: int = b.w.x * c.y.w + b.x.x * c.y.x;
    let g67: int = g66 + b.y.x * c.y.y;
    let g68: int = g67 + b.z.x * c.y.z;
    let g69: int = a.x.z * b.w.x * c.y.w + a.x.z * b.x.x * c.y.x;
    let g70: int = g69 + a.x.z * b.y.x * c.y.y;
    let g71: int = g70 + a.x.z * b.z.x * c.y.z;
    let g72: int = b.x.y * c.y.x + b.y.y * c.y.y;
    let g73: int = g72 + b.z.y * c.y.z;
    let g74: int = b.w.y * c.y.w + b.x.y * c.y.x;
    let g75: int = g74 + b.y.y * c.y.y;
    let g76: int = g75 + b.z.y * c.y.z;
    let g77: int = a.y.z * b.w.y * c.y.w + a.y.z * b.x.y * c.y.x;
    let g78: int = g77 + a.y.z * b.y.y * c.y.y;
    let g79: int = g78 + a.y.z * b.z.y * c.y.z;
    let g80: int = g71 + a.y.z * b.w.y * c.y.w;
    let g81: int = g80 + a.y.z * b.x.y * c.y.x;
    let g82: int = g81 + a.y.z * b.y.y * c.y.y;
    let g83: int = g82 + a.y.z * b.z.y * c.y.z;
    let g84: int = b.x.z * c.y.x + b.y.z * c.y.y;
    let g85: int = g84 + b.z.z * c.y.z;
    let g86: int = b.w.z * c.y.w + b.x.z * c.y.x;
    let g87: int = g86 + b.y.z * c.y.y;
    let g88: int = g87 + b.z.z * c.y.z;
    let g89: int = a.z.z * b.w.z * c.y.w + a.z.z * b.x.z * c.y.x;
    let g90: int = g89 + a.z.z * b.y.z * c.y.y;
    let g91: int = g90 + a.z.z * b.z.z * c.y.z;
    let g92: int = g83 + a.z.z * b.w.z * c.y.w;
    let g93: int = g92 + a.z.z * b.x.z * c.y.x;
    let g94: int = g93 + a.z.z * b.y.z * c.y.y;
    let g95: int = g94 + a.z.z * b.z.z * c.y.z;
    let g96: int = b.x.w * c.y.x + b.y.w * c.y.y;
    let g97: int = g96 + b.z.w * c.y.z;
    let g98: int = b.w.w * c.y.w + b.x.w * c.y.x;
    let g99: int = g98 + b.y.w * c.y.y;
    let g100: int = g99 + b.z.w * c.y.z;
    assert((g3 + a.z.z * b.x.z) * (c.y.x) == g3 * (c.y.x) + (a.z.z * b.x.z) * (c.y.x)
        && (g2 + a.y.z * b.x.y) * (c.y.x) == g2 * (c.y.x) + (a.y.z * b.x.y) * (c.y.x)
        && (a.w.z * b.x.w + a.x.z * b.x.x) * (c.y.x) == a.w.z * b.x.w * (c.y.x) + (a.x.z * b.x.x) * (c.y.x)
    ) by (nonlinear_arith);
    assert((g11 + a.z.z * b.y.z) * (c.y.y) == g11 * (c.y.y) + (a.z.z * b.y.z) * (c.y.y)
        && (g10 + a.y.z * b.y.y) * (c.y.y) == g10 * (c.y.y) + (a.y.z * b.y.y) * (c.y.y)
        && (a.w.z * b.y.w + a.x.z * b.y.x) * (c.y.y) == a.w.z * b.y.w * (c.y.y) + (a.x.z * b.y.x) * (c.y.y)
    ) by (nonlinear_arith);
    assert((g26 + a.z.z * b.z.z) * (c.y.z) == g26 * (c.y.z) + (a.z.z * b.z.z) * (c.y.z)
        && (g25 + a.y.z * b.z.y) * (c.y.z) == g25 * (c.y.z) + (a.y.z * b.z.y) * (c.y.z)
        && (a.w.z * b.z.w + a.x.z * b.z.x) * (c.y.z) == a.w.z * b.z.w * (c.y.z) + (a.x.z * b.z.x) * (c.y.z)
    ) by (nonlinear_arith);
    assert((g44 + a.z.z * b.w.z) * (c.y.w) == g44 * (c.y.w) + (a.z.z * b.w.z) * (c.y.w)
        && (g43 + a.y.z * b.w.y) * (c.y.w) == g43 * (c.y.w) + (a.y.z * b.w.y) * (c.y.w)
        && (a.w.z * b.w.w + a.x.z * b.w.x) * (c.y.w) == a.w.z * b.w.w * (c.y.w) + (a.x.z * b.w.x) * (c.y.w)
    ) by (nonlinear_arith);
    assert((a.x.z) * (g67 + b.z.x * c.y.z) == (a.x.z) * (g67) + (a.x.z) * (b.z.x * c.y.z)
        && (a.x.z) * (g66 + b.y.x * c.y.y) == (a.x.z) * (g66) + (a.x.z) * (b.y.x * c.y.y)
        && (a.x.z) * (b.w.x * c.y.w + b.x.x * c.y.x) == (a.x.z) * (b.w.x * c.y.w) + (a.x.z) * (b.x.x * c.y.x)
    ) by (nonlinear_arith);
    assert(a.x.z * (b.w.x * c.y.w) == a.x.z * b.w.x * c.y.w
        && a.x.z * (b.x.x * c.y.x) == a.x.z * b.x.x * c.y.x
        && a.x.z * (b.y.x * c.y.y) == a.x.z * b.y.x * c.y.y
        && a.x.z * (b.z.x * c.y.z) == a.x.z * b.z.x * c.y.z
    ) by (nonlinear_arith);
    assert((a.y.z) * (g75 + b.z.y * c.y.z) == (a.y.z) * (g75) + (a.y.z) * (b.z.y * c.y.z)
        && (a.y.z) * (g74 + b.y.y * c.y.y) == (a.y.z) * (g74) + (a.y.z) * (b.y.y * c.y.y)
        && (a.y.z) * (b.w.y * c.y.w + b.x.y * c.y.x) == (a.y.z) * (b.w.y * c.y.w) + (a.y.z) * (b.x.y * c.y.x)
    ) by (nonlinear_arith);
    assert(a.y.z * (b.w.y * c.y.w) == a.y.z * b.w.y * c.y.w
        && a.y.z * (b.x.y * c.y.x) == a.y.z * b.x.y * c.y.x
        && a.y.z * (b.y.y * c.y.y) == a.y.z * b.y.y * c.y.y
        && a.y.z * (b.z.y * c.y.z) == a.y.z * b.z.y * c.y.z
    ) by (nonlinear_arith);
    assert((a.z.z) * (g87 + b.z.z * c.y.z) == (a.z.z) * (g87) + (a.z.z) * (b.z.z * c.y.z)
        && (a.z.z) * (g86 + b.y.z * c.y.y) == (a.z.z) * (g86) + (a.z.z) * (b.y.z * c.y.y)
        && (a.z.z) * (b.w.z * c.y.w + b.x.z * c.y.x) == (a.z.z) * (b.w.z * c.y.w) + (a.z.z) * (b.x.z * c.y.x)
    ) by (nonlinear_arith);
    assert(a.z.z * (b.w.z * c.y.w) == a.z.z * b.w.z * c.y.w
        && a.z.z * (b.x.z * c.y.x) == a.z.z * b.x.z * c.y.x
        && a.z.z * (b.y.z * c.y.y) == a.z.z * b.y.z * c.y.y
        && a.z.z * (b.z.z * c.y.z) == a.z.z * b.z.z * c.y.z
    ) by (nonlinear_arith);
    assert((a.w.z) * (g99 + b.z.w * c.y.z) == (a.w.z) * (g99) + (a.w.z) * (b.z.w * c.y.z)
        && (a.w.z) * (g98 + b.y.w * c.y.y) == (a.w.z) * (g98) + (a.w.z) * (b.y.w * c.y.y)
        && (a.w.z) * (b.w.w * c.y.w + b.x.w * c.y.x) == (a.w.z) * (b.w.w * c.y.w) + (a.w.z) * (b.x.w * c.y.x)
    ) by (nonlinear_arith);
    assert(a.w.z * (b.w.w * c.y.w) == a.w.z * b.w.w * c.y.w
        && a.w.z * (b.x.w * c.y.x) == a.w.z * b.x.w * c.y.x
        && a.w.z * (b.y.w * c.y.y) == a.w.z * b.y.w * c.y.y
        && a.w.z * (b.z.w * c.y.z) == a.w.z * b.z.w * c.y.z
    ) by (nonlinear_arith);
    assert((a.x.z) * (b.x.x) == a.x.z * b.x.x);
    assert((a.y.z) * (b.x.y) == a.y.z * b.x.y);
    assert((a.x.z * b.x.x) + (a.y.z * b.x.y) == g0);
    assert((a.z.z) * (b.x.z) == a.z.z * b.x.z);
    assert((g0) + (a.z.z * b.x.z) == g1);
    assert((a.w.z) * (b.x.w) == a.w.z * b.x.w);
    assert((g1) + (a.w.z * b.x.w) == g4);
    assert((g2) * (c.y.x) == g5);
    assert((g3) * (c.y.x) == g6);
    assert((g4) * (c.y.x) == g7);
    assert((g4) * (c.y.x) == g7);
    assert((a.x.z) * (b.y.x) == a.x.z * b.y.x);
    assert((a.y.z) * (b.y.y) == a.y.z * b.y.y);
    assert((a.x.z * b.y.x) + (a.y.z * b.y.y) == g8);
    assert((a.z.z) * (b.y.z) == a.z.z * b.y.z);
    assert((g8) + (a.z.z * b.y.z) == g9);
    assert((a.w.z) * (b.y.w) == a.w.z * b.y.w);
    assert((g9) + (a.w.z * b.y.w) == g12);
    assert((g10) * (c.y.y) == g13);
    assert((g11) * (c.y.y) == g14);
    assert((g12) * (c.y.y) == g15);
    assert((g12) * (c.y.y) == g15);
    assert((g7) + (g15) == g22);
    assert((a.x.z) * (b.z.x) == a.x.z * b.z.x);
    assert((a.y.z) * (b.z.y) == a.y.z * b.z.y);
    assert((a.x.z * b.z.x) + (a.y.z * b.z.y) == g23);
    assert((a.z.z) * (b.z.z) == a.z.z * b.z.z);
    assert((g23) + (a.z.z * b.z.z) == g24);
    assert((a.w.z) * (b.z.w) == a.w.z * b.z.w);
    assert((g24) + (a.w.z * b.z.w) == g27);
    assert((g25) * (c.y.z) == g28);
    assert((g26) * (c.y.z) == g29);
    assert((g27) * (c.y.z) == g30);
    assert((g27) * (c.y.z) == g30);
    assert((g22) + (g30) == g40);
    assert((a.x.z) * (b.w.x) == a.x.z * b.w.x);
    assert((a.y.z) * (b.w.y) == a.y.z * b.w.y);
    assert((a.x.z * b.w.x) + (a.y.z * b.w.y) == g41);
    assert((a.z.z) * (b.w.z) == a.z.z * b.w.z);
    assert((g41) + (a.z.z * b.w.z) == g42);
    assert((a.w.z) * (b.w.w) == a.w.z * b.w.w);
    assert((g42) + (a.w.z * b.w.w) == g45);
    assert((g43) * (c.y.w) == g46);
    assert((g44) * (c.y.w) == g47);
    assert((g45) * (c.y.w) == g48);
    assert((g45) * (c.y.w) == g48);
    assert((g40) + (g48) == g63);
    assert((b.x.x) * (c.y.x) == b.x.x * c.y.x);
    assert((b.y.x) * (c.y.y) == b.y.x * c.y.y);
    assert((b.x.x * c.y.x) + (b.y.x * c.y.y) == g64);
    assert((b.z.x) * (c.y.z) == b.z.x * c.y.z);
    assert((g64) + (b.z.x * c.y.z) == g65);
    assert((b.w.x) * (c.y.w) == b.w.x * c.y.w);
    assert((g65) + (b.w.x * c.y.w) == g68);
    assert((a.x.z) * (g66) == g69);
    assert((a.x.z) * (g67) == g70);
    assert((a.x.z) * (g68) == g71);
    assert((a.x.z) * (g68) == g71);
    assert((b.x.y) * (c.y.x) == b.x.y * c.y.x);
    assert((b.y.y) * (c.y.y) == b.y.y * c.y.y);
    assert((b.x.y * c.y.x) + (b.y.y * c.y.y) == g72);
    assert((b.z.y) * (c.y.z) == b.z.y * c.y.z);
    assert((g72) + (b.z.y * c.y.z) == g73);
    assert((b.w.y) * (c.y.w) == b.w.y * c.y.w);
    assert((g73) + (b.w.y * c.y.w) == g76);
    assert((a.y.z) * (g74) == g77);
    assert((a.y.z) * (g75) == g78);
    assert((a.y.z) * (g76) == g79);
    assert((a.y.z) * (g76) == g79);
    assert((g71) + (g79) == g83);
    assert((b.x.z) * (c.y.x) == b.x.z * c.y.x);
    assert((b.y.z) * (c.y.y) == b.y.z * c.y.y);
    assert((b.x.z * c.y.x) + (b.y.z * c.y.y) == g84);
    assert((b.z.z) * (c.y.z) == b.z.z * c.y.z);
    assert((g84) + (b.z.z * c.y.z) == g85);
    assert((b.w.z) * (c.y.w) == b.w.z * c.y.w);
    assert((g85) + (b.w.z * c.y.w) == g88);
    assert((a.z.z) * (g86) == g89);
    assert((a.z.z) * (g87) == g90);
    assert((a.z.z) * (g88) == g91);
    assert((a.z.z) * (g88) == g91);
    assert((g83) + (g91) == g95);
    assert((b.x.w) * (c.y.x) == b.x.w * c.y.x);
    assert((b.y.w) * (c.y.y) == b.y.w * c.y.y);
    assert((b.x.w * c.y.x) + (b.y.w * c.y.y) == g96);
    assert((b.z.w) * (c.y.z) == b.z.w * c.y.z);
    assert((g96) + (b.z.w * c.y.z) == g97);
    assert((b.w.w) * (c.y.w) == b.w.w * c.y.w);
    assert((g97) + (b.w.w * c.y.w) == g100);
    assert((a.w.z) * (g98) == g49);
    assert((a.w.z) * (g99) == g50);
    assert((a.w.z) * (g100) == g51);
    assert((a.w.z) * (g100) == g51);
    assert((g95) + (g51) == g63);
}

proof fn assoc4_part_y_w(a: M4, b: M4, c: M4)
    ensures
        m4_mul(m4_mul(a, b), c).y.w == m4_mul(a, m4_mul(b, c)).y.w,
{
    let g0: int = a.x.w * b.x.x + a.y.w * b.x.y;
    let g1: int = g0 + a.z.w * b.x.z;
    let g2: int = a.w.w * b.x.w + a.x.w * b.x.x;
    let g3: int = g2 + a.y.w * b.x.y;
    let g4: int = g3 + a.z.w * b.x.z;
    let g5: int = a.w.w * b.x.w * c.y.x + a.x.w * b.x.x * c.y.x;
    let g6: int = g5 + a.y.w * b.x.y * c.y.x;
    let g7: int = g6 + a.z.w * b.x.z * c.y.x;
    let g8: int = a.x.w * b.y.x + a.y.w * b.y.y;
    let g9: int = g8 + a.z.w * b.y.z;
    let g10: int = a.w.w * b.y.w + a.x.w * b.y.x;
    let g11: int = g10 + a.y.w * b.y.y;
    let g12: int = g11 + a.z.w * b.y.z;
    let g13: int = a.w.w * b.y.w * c.y.y + a.x.w * b.y.x * c.y.y;
    let g14: int = g13 + a.y.w * b.y.y * c.y.y;
    let g15: int = g14 + a.z.w * b.y.z * c.y.y;
    let g16: int = a.w.w * b.x.w * c.y.x + a.w.w * b.y.w * c.y.y;
    let g17: int = g16 + a.x.w * b.x.x * c.y.x;
    let g18: int = g17 + a.x.w * b.y.x * c.y.y;
    let g19: int = g18 + a.y.w * b.x.y * c.y.x;
    let g20: int = g19 + a.y.w * b.y.y * c.y.y;
    let g21: int = g20 + a.z.w * b.x.z * c.y.x;
    let g22: int = g21 + a.z.w * b.y.z * c.y.y;
    let g23: int = a.x.w * b.z.x + a.y.w * b.z.y;
    let g24: int = g23 + a.z.w * b.z.z;
    let g25: int = a.w.w * b.z.w + a.x.w * b.z.x;
    let g26: int = g25 + a.y.w * b.z.y;
    let g27: int = g26 + a.z.w * b.z.z;
    let g28: int = a.w.w * b.z.w * c.y.z + a.x.w * b.z.x * c.y.z;
    let g29: int = g28 + a.y.w * b.z.y * c.y.z;
    let g30: int = g29 + a.z.w * b.z.z * c.y.z;
    let g31: int = g16 + a.w.w * b.z.w * c.y.z;
    let g32: int = g31 + a.x.w * b.x.x * c.y.x;
    let g33: int = g32 + a.x.w * b.y.x * c.y.y;
    let g34: int = g33 + a.x.w * b.z.x * c.y.z;
    let g35: int = g34 + a.y.w * b.x.y * c.y.x;
    let g36: int = g35 + a.y.w * b.y.y * c.y.y;
    let g37: int = g36 + a.y.w * b.z.y * c.y.z;
    let g38: int = g37 + a.z.w * b.x.z * c.y.x;
    let g39: int = g38 + a.z.w * b.y.z * c.y.y;
    let g40: int = g39 + a.z.w * b.z.z * c.y.z;
    let g41: int = a.x.w * b.w.x + a.y.w * b.w.y;
    let g42: int = g41 + a.z.w * b.w.z;
    let g43: int = a.w.w * b.w.w + a.x.w * b.w.x;
    let g44: int = g43 + a.y.w * b.w.y;
    let g45: int = g44 + a.z.w * b.w.z;
    let g46: int = a.w.w * b.w.w * c.y.w + a.x.w * b.w.x * c.y.w;
    let g47: int = g46 + a.y.w * b.w.y * c.y.w;
    let g48: int = g47 + a.z.w * b.w.z * c.y.w;
    let g49: int = a.w.w * b.w.w * c.y.w + a.w.w * b.x.w * c.y.x;
    let g50: int = g49 + a.w.w * b.y.w * c.y.y;
    let g51: int = g50 + a.w.w * b.z.w * c.y.z;
    let g52: int = g51 + a.x.w * b.w.x * c.y.w;
    let g53: int = g52 + a.x.w * b.x.x * c.y.x;
    let g54: int = g53 + a.x.w * b.y.x * c.y.y;
    let g55: int = g54 + a.x.w * b.z.x * c.y.z;
    let g56: int = g55 + a.y.w * b.w.y * c.y.w;
    let g57: int = g56 + a.y.w * b.x.y * c.y.x;
    let g58: int = g57 + a.y.w * b.y.y * c.y.y;
    let g59: int = g58 + a.y.w * b.z.y * c.y.z;
    let g60: int = g59 + a.z.w * b.w.z * c.y.w;
    let g61: int = g60 + a.z.w * b.x.z * c.y.x;
    let g62: int = g61 + a.z.w * b.y.z * c.y.y;
    let g63: int = g62 + a.z.w * b.z.z * c.y.z;
    let g64: int = b.x.x * c.y.x + b.y.x * c.y.y;
    let g65: int = g64 + b.z.x * c.y.z;
    let g66: int = b.w.x * c.y.w + b.x.x * c.y.x;
    let g67: int = g66 + b.y.x * c.y.y;
    let g68: int = g67 + b.z.x * c.y.z;
    let g69: int = a.x.w * b.w.x * c.y.w + a.x.w * b.x.x * c.y.x;
    let g70: int = g69 + a.x.w * b.y.x * c.y.y;
    let g71: int = g70 + a.x.w * b.z.x * c.y.z;
    let g72: int = b.x.y * c.y.x + b.y.y * c.y.y;
    let g73: int = g72 + b.z.y * c.y.z;
    let g74: int = b.w.y * c.y.w + b.x.y * c.y.x;
    let g75: int = g74 + b.y.y * c.y.y;
    let g76: int = g75 + b.z.y * c.y.z;
    let g77: int = a.y.w * b.w.y * c.y.w + a.y.w * b.x.y * c.y.x;
    let g78: int = g77 + a.y.w * b.y.y * c.y.y;
    let g79: int = g78 + a.y.w * b.z.y * c.y.z;
    let g80: int = g71 + a.y.w * b.w.y * c.y.w;
    let g81: int = g80 + a.y.w * b.x.y * c.y.x;
    let g82: int = g81 + a.y.w * b.y.y * c.y.y;
    let g83: int = g82 + a.y.w * b.z.y * c.y.z;
    let g84: int = b.x.z * c.y.x + b.y.z * c.y.y;
    let g85: int = g84 + b.z.z * c.y.z;
    let g86: int = b.w.z * c.y.w + b.x.z * c.y.x;
    let g87: int = g86 + b.y.z * c.y.y;
    let g88: int = g87 + b.z.z * c.y.z;
    let g89: int = a.z.w * b.w.z * c.y.w + a.z.w * b.x.z * c.y.x;
    let g90: int = g89 + a.z.w * b.y.z * c.y.y;
    let g91: int = g90 + a.z.w * b.z.z * c.y.z;
    let g92: int = g83 + a.z.w * b.w.z * c.y.w;
    let g93: int = g92 + a.z.w * b.x.z * c.y.x;
    let g94: int = g93 + a.z.w * b.y.z * c.y.y;
    let g95: int = g94 + a.z.w * b.z.z * c.y.z;
    let g96: int = b.x.w * c.y.x + b.y.w * c.y.y;
    let g97: int = g96 + b.z.w * c.y.z;
    let g98: int = b.w.w * c.y.w + b.x.w * c.y.x;
    let g99: int = g98 + b.y.w * c.y.y;
    let g100: int = g99 + b.z.w * c.y.z;
    assert((g3 + a.z.w * b.x.z) * (c.y.x) == g3 * (c.y.x) + (a.z.w * b.x.z) * (c.y.x)
        && (g2 + a.y.w * b.x.y) * (c.y.x) == g2 * (c.y.x) + (a.y.w * b.x.y) * (c.y.x)
        && (a.w.w * b.x.w + a.x.w * b.x.x) * (c.y.x) == a.w.w * b.x.w * (c.y.x) + (a.x.w * b.x.x) * (c.y.x)
    ) by (nonlinear_arith);
    assert((g11 + a.z.w * b.y.z) * (c.y.y) == g11 * (c.y.y) + (a.z.w * b.y.z) * (c.y.y)
        && (g10 + a.y.w * b.y.y) * (c.y.y) == g10 * (c.y.y) + (a.y.w * b.y.y) * (c.y.y)
        && (a.w.w * b.y.w + a.x.w * b.y.x) * (c.y.y) == a.w.w * b.y.w * (c.y.y) + (a.x.w * b.y.x) * (c.y.y)
    ) by (nonlinear_arith);
    assert((g26 + a.z.w * b.z.z) * (c.y.z) == g26 * (c.y.z) + (a.z.w * b.z.z) * (c.y.z)
        && (g25 + a.y.w * b.z.y) * (c.y.z) == g25 * (c.y.z) + (a.y.w * b.z.y) * (c.y.z)
        && (a.w.w * b.z.w + a.x.w * b.z.x) * (c.y.z) == a.w.w * b.z.w * (c.y.z) + (a.x.w * b.z.x) * (c.y.z)
    ) by (nonlinear_arith);
    assert((g44 + a.z.w * b.w.z) * (c.y.w) == g44 * (c.y.w) + (a.z.w * b.w.z) * (c.y.w)
        && (g43 + a.y.w * b.w.y) * (c.y.w) == g43 * (c.y.w) + (a.y.w * b.w.y) * (c.y.w)
        && (a.w.w * b.w.w + a.x.w * b.w.x) * (c.y.w) == a.w.w * b.w.w * (c.y.w) + (a.x.w * b.w.x) * (c.y.w)
    ) by (nonlinear_arith);
    assert((a.x.w) * (g67 + b.z.x * c.y.z) == (a.x.w) * (g67) + (a.x.w) * (b.z.x * c.y.z)
        && (a.x.w) * (g66 + b.y.x * c.y.y) == (a.x.w) * (g66) + (a.x.w) * (b.y.x * c.y.y)
        && (a.x.w) * (b.w.x * c.y.w + b.x.x * c.y.x) == (a.x.w) * (b.w.x * c.y.w) + (a.x.w) * (b.x.x * c.y.x)
    ) by (nonlinear_arith);
    assert(a.x.w * (b.w.x * c.y.w) == a.x.w * b.w.x * c.y.w
        && a.x.w * (b.x.x * c.y.x) == a.x.w * b.x.x * c.y.x
        && a.x.w * (b.y.x * c.y.y) == a.x.w * b.y.x * c.y.y
        && a.x.w * (b.z.x * c.y.z) == a.x.w * b.z.x * c.y.z
    ) by (nonlinear_arith);
    assert((a.y.w) * (g75 + b.z.y * c.y.z) == (a.y.w) * (g75) + (a.y.w) * (b.z.y * c.y.z)
        && (a.y.w) * (g74 + b.y.y * c.y.y) == (a.y.w) * (g74) + (a.y.w) * (b.y.y * c.y.y)
        && (a.y.w) * (b.w.y * c.y.w + b.x.y * c.y.x) == (a.y.w) * (b.w.y * c.y.w) + (a.y.w) * (b.x.y * c.y.x)
    ) by (nonlinear_arith);
    assert(a.y.w * (b.w.y * c.y.w) == a.y.w * b.w.y * c.y.w
        && a.y.w * (b.x.y * c.y.x) == a.y.w * b.x.y * c.y.x
        && a.y.w * (b.y.y * c.y.y) == a.y.w * b.y.y * c.y.y
        && a.y.w * (b.z.y * c.y.z) == a.y.w * b.z.y * c.y.z
    ) by (nonlinear_arith);
    assert((a.z.w) * (g87 + b.z.z * c.y.z) == (a.z.w) * (g87) + (a.z.w) * (b.z.z * c.y.z)
        && (a.z.w) * (g86 + b.y.z * c.y.y) == (a.z.w) * (g86) + (a.z.w) * (b.y.z * c.y.y)
        && (a.z.w) * (b.w.z * c.y.w + b.x.z * c.y.x) == (a.z.w) * (b.w.z * c.y.w) + (a.z.w) * (b.x.z * c.y.x)
    ) by (nonlinear_arith);
    assert(a.z.w * (b.w.z * c.y.w) == a.z.w * b.w.z * c.y.w
        && a.z.w * (b.x.z * c.y.x) == a.z.w * b.x.z * c.y.x
        && a.z.w * (b.y.z * c.y.y) == a.z.w * b.y.z * c.y.y
        && a.z.w * (b.z.z * c.y.z) == a.z.w * b.z.z * c.y.z
    ) by (nonlinear_arith);
    assert((a.w.w) * (g99 + b.z.w * c.y.z) == (a.w.w) * (g99) + (a.w.w) * (b.z.w * c.y.z)
        && (a.w.w) * (g98 + b.y.w * c.y.y) == (a.w.w) * (g98) + (a.w.w) * (b.y.w * c.y.y)
        && (a.w.w) * (b.w.w * c.y.w + b.x.w * c.y.x) == (a.w.w) * (b.w.w * c.y.w) + (a.w.w) * (b.x.w * c.y.x)
    ) by (nonlinear_arith);
    assert(a.w.w * (b.w.w * c.y.w) == a.w.w * b.w.w * c.y.w
        && a.w.w * (b.x.w * c.y.x) == a.w.w * b.x.w * c.y.x
        && a.w.w * (b.y.w * c.y.y) == a.w.w * b.y.w * c.y.y
        && a.w.w * (b.z.w * c.y.z) == a.w.w * b.z.w * c.y.z
    ) by (nonlinear_arith);
    assert((a.x.w) * (b.x.x) == a.x.w * b.x.x);
    assert((a.y.w) * (b.x.y) == a.y.w * b.x.y);
    assert((a.x.w * b.x.x) + (a.y.w * b.x.y) == g0);
    assert((a.z.w) * (b.x.z) == a.z.w * b.x.z);
    assert((g0) + (a.z.w * b.x.z) == g1);
    assert((a.w.w) * (b.x.w) == a.w.w * b.x.w);
    assert((g1) + (a.w.w * b.x.w) == g4);
    assert((g2) * (c.y.x) == g5);
    assert((g3) * (c.y.x) == g6);
    assert((g4) * (c.y.x) == g7);
    assert((g4) * (c.y.x) == g7);
    assert((a.x.w) * (b.y.x) == a.x.w * b.y.x);
    assert((a.y.w) * (b.y.y) == a.y.w * b.y.y);
    assert((a.x.w * b.y.x) + (a.y.w * b.y.y) == g8);
    assert((a.z.w) * (b.y.z) == a.z.w * b.y.z);
    assert((g8) + (a.z.w * b.y.z) == g9);
    assert((a.w.w) * (b.y.w) == a.w.w * b.y.w);
    assert((g9) + (a.w.w * b.y.w) == g12);
    assert((g10) * (c.y.y) == g13);
    assert((g11) * (c.y.y) == g14);
    assert((g12) * (c.y.y) == g15);
    assert((g12) * (c.y.y) == g15);
    assert((g7) + (g15) == g22);
    assert((a.x.w) * (b.z.x) == a.x.w * b.z.x);
    assert((a.y.w) * (b.z.y) == a.y.w * b.z.y);
    assert((a.x.w * b.z.x) + (a.y.w * b.z.y) == g23);
    assert((a.z.w) * (b.z.z) == a.z.w * b.z.z);
    assert((g23) + (a.z.w * b.z.z) == g24);
    assert((a.w.w) * (b.z.w) == a.w.w * b.z.w);
    assert((g24) + (a.w.w * b.z.w) == g27);
    assert((g25) * (c.y.z) == g28);
    assert((g26) * (c.y.z) == g29);
    assert((g27) * (c.y.z) == g30);
    assert((g27) * (c.y.z) == g30);
    assert((g22) + (g30) == g40);
    assert((a.x.w) * (b.w.x) == a.x.w * b.w.x);
    assert((a.y.w) * (b.w.y) == a.y.w * b.w.y);
    assert((a.x.w * b.w.x) + (a.y.w * b.w.y) == g41);
    assert((a.z.w) * (b.w.z) == a.z.w * b.w.z);
    assert((g41) + (a.z.w * b.w.z) == g42);
    assert((a.w.w) * (b.w.w) == a.w.w * b.w.w);
    assert((g42) + (a.w.w * b.w.w) == g45);
    assert((g43) * (c.y.w) == g46);
    assert((g44) * (c.y.w) == g47);
    assert((g45) * (c.y.w) == g48);
    assert((g45) * (c.y.w) == g48);
    assert((g40) + (g48) == g63);
    assert((b.x.x) * (c.y.x) == b.x.x * c.y.x);
    assert((b.y.x) * (c.y.y) == b.y.x * c.y.y);
    assert((b.x.x * c.y.x) + (b.y.x * c.y.y) == g64);
    assert((b.z.x) * (c.y.z) == b.z.x * c.y.z);
    assert((g64) + (b.z.x * c.y.z) == g65);
    assert((b.w.x) * (c.y.w) == b.w.x * c.y.w);
    assert((g65) + (b.w.x * c.y.w) == g68);
    assert((a.x.w) * (g66) == g69);
    assert((a.x.w) * (g67) == g70);
    assert((a.x.w) * (g68) == g71);
    assert((a.x.w) * (g68) == g71);
    assert((b.x.y) * (c.y.x) == b.x.y * c.y.x);
    assert((b.y.y) * (c.y.y) == b.y.y * c.y.y);
    assert((b.x.y * c.y.x) + (b.y.y * c.y.y) == g72);
    assert((b.z.y) * (c.y.z) == b.z.y * c.y.z);
    assert((g72) + (b.z.y * c.y.z) == g73);
    assert((b.w.y) * (c.y.w) == b.w.y * c.y.w);
    assert((g73) + (b.w.y * c.y.w) == g76);
    assert((a.y.w) * (g74) == g77);
    assert((a.y.w) * (g75) == g78);
    assert((a.y.w) * (g76) == g79);
    assert((a.y.w) * (g76) == g79);
    assert((g71) + (g79) == g83);
    assert((b.x.z) * (c.y.x) == b.x.z * c.y.x);
    assert((b.y.z) * (c.y.y) == b.y.z * c.y.y);
    assert((b.x.z * c.y.x) + (b.y.z * c.y.y) == g84);
    assert((b.z.z) * (c.y.z) == b.z.z * c.y.z);
    assert((g84) + (b.z.z * c.y.z) == g85);
    assert((b.w.z) * (c.y.w) == b.w.z * c.y.w);
    assert((g85) + (b.w.z * c.y.w) == g88);
    assert((a.z.w) * (g86) == g89);
    assert((a.z.w) * (g87) == g90);
    assert((a.z.w) * (g88) == g91);
    assert((a.z.w) * (g88) == g91);
    assert((g83) + (g91) == g95);
    assert((b.x.w) * (c.y.x) == b.x.w * c.y.x);
    assert((b.y.w) * (c.y.y) == b.y.w * c.y.y);
    assert((b.x.w * c.y.x) + (b.y.w * c.y.y) == g96);
    assert((b.z.w) * (c.y.z) == b.z.w * c.y.z);
    assert((g96) + (b.z.w * c.y.z) == g97);
    assert((b.w.w) * (c.y.w) == b.w.w * c.y.w);
    assert((g97) + (b.w.w * c.y.w) == g100);
    assert((a.w.w) * (g98) == g49);
    assert((a.w.w) * (g99) == g50);
    assert((a.w.w) * (g100) == g51);
    assert((a.w.w) * (g100) == g51);
    assert((g95) + (g51) == g63);
}

proof fn assoc4_part_y_d(a: M4, b: M4, c: M4)
    ensures
        m4_mul(m4_mul(a, b), c).y.d == m4_mul(a, m4_mul(b, c)).y.d,
{
    assert(a.x.d * (b.x.d * c.y.d) == a.x.d * b.x.d * c.y.d) by (nonlinear_arith);
    assert((a.x.d) * (b.x.d) == a.x.d * b.x.d);
    assert((a.x.d * b.x.d) * (c.y.d) == a.x.d * b.x.d * c.y.d);
    assert((b.x.d) * (c.y.d) == b.x.d * c.y.d);
    assert((a.x.d) * (b.x.d * c.y.d) == a.x.d * b.x.d * c.y.d);
}

proof fn assoc4_part_z_x(a: M4, b: M4, c: M4)
    ensures
        m4_mul(m4_mul(a, b), c).z.x == m4_mul(a, m4_mul(b, c)).z.x,
{
    let g0: int = a.x.x * b.x.x + a.y.x * b.x.y;
    let g1: int = g0 + a.z.x * b.x.z;
    let g2: int = a.w.x * b.x.w + a.x.x * b.x.x;
    let g3: int = g2 + a.y.x * b.x.y;
    let g4: int = g3 + a.z.x * b.x.z;
    let g5: int = a.w.x * b.x.w * c.z.x + a.x.x * b.x.x * c.z.x;
    let g6: int = g5 + a.y.x * b.x.y * c.z.x;
    let g7: int = g6 + a.z.x * b.x.z * c.z.x;
    let g8: int = a.x.x * b.y.x + a.y.x * b.y.y;
    let g9: int = g8 + a.z.x * b.y.z;
    let g10: int = a.w.x * b.y.w + a.x.x * b.y.x;
    let g11: int = g10 + a.y.x * b.y.y;
    let g12: int = g11 + a.z.x * b.y.z;
    let g13: int = a.w.x * b.y.w * c.z.y + a.x.x * b.y.x * c.z.y;
    let g14: int = g13 + a.y.x * b.y.y * c.z.y;
    let g15: int = g14 + a.z.x * b.y.z * c.z.y;
    let g16: int = a.w.x * b.x.w * c.z.x + a.w.x * b.y.w * c.z.y;
    let g17: int = g16 + a.x.x * b.x.x * c.z.x;
    let g18: int = g17 + a.x.x * b.y.x * c.z.y;
    let g19: int = g18 + a.y.x * b.x.y * c.z.x;
    let g20: int = g19 + a.y.x * b.y.y * c.z.y;
    let g21: int = g20 + a.z.x * b.x.z * c.z.x;
    let g22: int = g21 + a.z.x * b.y.z * c.z.y;
    let g23: int = a.x.x * b.z.x + a.y.x * b.z.y;
    let g24: int = g23 + a.z.x * b.z.z;
    let g25: int = a.w.x * b.z.w + a.x.x * b.z.x;
    let g26: int = g25 + a.y.x * b.z.y;
    let g27: int = g26 + a.z.x * b.z.z;
    let g28: int = a.w.x * b.z.w * c.z.z + a.x.x * b.z.x * c.z.z;
    let g29: int = g28 + a.y.x * b.z.y * c.z.z;
    let g30: int = g29 + a.z.x * b.z.z * c.z.z;
    let g31: int = g16 + a.w.x * b.z.w * c.z.z;
    let g32: int = g31 + a.x.x * b.x.x * c.z.x;
    let g33: int = g32 + a.x.x * b.y.x * c.z.y;
    let g34: int = g33 + a.x.x * b.z.x * c.z.z;
    let g35: int = g34 + a.y.x * b.x.y * c.z.x;
    let g36: int = g35 + a.y.x * b.y.y * c.z.y;
    let g37: int = g36 + a.y.x * b.z.y * c.z.z;
    let g38: int = g37 + a.z.x * b.x.z * c.z.x;
    let g39: int = g38 + a.z.x * b.y.z * c.z.y;
    let g40: int = g39 + a.z.x * b.z.z * c.z.z;
    let g41: int = a.x.x * b.w.x + a.y.x * b.w.y;
    let g42: int = g41 + a.z.x * b.w.z;
    let g43: int = a.w.x * b.w.w + a.x.x * b.w.x;
    let g44: int = g43 + a.y.x * b.w.y;
    let g45: int = g44 + a.z.x * b.w.z;
    let g46: int = a.w.x * b.w.w * c.z.w + a.x.x * b.w.x * c.z.w;
    let g47: int = g46 + a.y.x * b.w.y * c.z.w;
    let g48: int = g47 + a.z.x * b.w.z * c.z.w;
    let g49: int = a.w.x * b.w.w * c.z.w + a.w.x * b.x.w * c.z.x;
    let g50: int = g49 + a.w.x * b.y.w * c.z.y;
    let g51: int = g50 + a.w.x * b.z.w * c.z.z;
    let g52: int = g51 + a.x.x * b.w.x * c.z.w;
    let g53: int = g52 + a.x.x * b.x.x * c.z.x;
    let g54: int = g53 + a.x.x * b.y.x * c.z.y;
    let g55: int = g54 + a.x.x * b.z.x * c.z.z;
    let g56: int = g55 + a.y.x * b.w.y * c.z.w;
    let g57: int = g56 + a.y.x * b.x.y * c.z.x;
    let g58: int = g57 + a.y.x * b.y.y * c.z.y;
    let g59: int = g58 + a.y.x * b.z.y * c.z.z;
    let g60: int = g59 + a.z.x * b.w.z * c.z.w;
    let g61: int = g60 + a.z.x * b.x.z * c.z.x;
    let g62: int = g61 + a.z.x * b.y.z * c.z.y;
    let g63: int = g62 + a.z.x * b.z.z * c.z.z;
    let g64: int = b.x.x * c.z.x + b.y.x * c.z.y;
    let g65: int = g64 + b.z.x * c.z.z;
    let g66: int = b.w.x * c.z.w + b.x.x * c.z.x;
    let g67: int = g66 + b.y.x * c.z.y;
    let g68: int = g67 + b.z.x * c.z.z;
    let g69: int = a.x.x * b.w.x * c.z.w + a.x.x * b.x.x * c.z.x;
    let g70: int = g69 + a.x.x * b.y.x * c.z.y;
    let g71: int = g70 + a.x.x * b.z.x * c.z.z;
    let g72: int = b.x.y * c.z.x + b.y.y * c.z.y;
    let g73: int = g72 + b.z.y * c.z.z;
    let g74: int = b.w.y * c.z.w + b.x.y * c.z.x;
    let g75: int = g74 + b.y.y * c.z.y;
    let g76: int = g75 + b.z.y * c.z.z;
    let g77: int = a.y.x * b.w.y * c.z.w + a.y.x * b.x.y * c.z.x;
    let g78: int = g77 + a.y.x * b.y.y * c.z.y;
    let g79: int = g78 + a.y.x * b.z.y * c.z.z;
    let g80: int = g71 + a.y.x * b.w.y * c.z.w;
    let g81: int = g80 + a.y.x * b.x.y * c.z.x;
    let g82: int = g81 + a.y.x * b.y.y * c.z.y;
    let g83: int = g82 + a.y.x * b.z.y * c.z.z;
    let g84: int = b.x.z * c.z.x + b.y.z * c.z.y;
    let g85: int = g84 + b.z.z * c.z.z;
    let g86: int = b.w.z * c.z.w + b.x.z * c.z.x;
    let g87: int = g86 + b.y.z * c.z.y;
    let g88: int = g87 + b.z.z * c.z.z;
    let g89: int = a.z.x * b.w.z * c.z.w + a.z.x * b.x.z * c.z.x;
    let g90: int = g89 + a.z.x * b.y.z * c.z.y;
    let g91: int = g90 + a.z.x * b.z.z * c.z.z;
    let g92: int = g83 + a.z.x * b.w.z * c.z.w;
    let g93: int = g92 + a.z.x * b.x.z * c.z.x;
    let g94: int = g93 + a.z.x * b.y.z * c.z.y;
    let g95: int = g94 + a.z.x * b.z.z * c.z.z;
    let g96: int = b.x.w * c.z.x + b.y.w * c.z.y;
    let g97: int = g96 + b.z.w * c.z.z;
    let g98: int = b.w.w * c.z.w + b.x.w * c.z.x;
    let g99: int = g98 + b.y.w * c.z.y;
    let g100: int = g99 + b.z.w * c.z.z;
    assert((g3 + a.z.x * b.x.z) * (c.z.x) == g3 * (c.z.x) + (a.z.x * b.x.z) * (c.z.x)
        && (g2 + a.y.x * b.x.y) * (c.z.x) == g2 * (c.z.x) + (a.y.x * b.x.y) * (c.z.x)
        && (a.w.x * b.x.w + a.x.x * b.x.x) * (c.z.x) == a.w.x * b.x.w * (c.z.x) + (a.x.x * b.x.x) * (c.z.x)
    ) by (nonlinear_arith);
    assert((g11 + a.z.x * b.y.z) * (c.z.y) == g11 * (c.z.y) + (a.z.x * b.y.z) * (c.z.y)
        && (g10 + a.y.x * b.y.y) * (c.z.y) == g10 * (c.z.y) + (a.y.x * b.y.y) * (c.z.y)
        && (a.w.x * b.y.w + a.x.x * b.y.x) * (c.z.y) == a.w.x * b.y.w * (c.z.y) + (a.x.x * b.y.x) * (c.z.y)
    ) by (nonlinear_arith);
    assert((g26 + a.z.x * b.z.z) * (c.z.z) == g26 * (c.z.z) + (a.z.x * b.z.z) * (c.z.z)
        && (g25 + a.y.x * b.z.y) * (c.z.z) == g25 * (c.z.z) + (a.y.x * b.z.y) * (c.z.z)
        && (a.w.x * b.z.w + a.x.x * b.z.x) * (c.z.z) == a.w.x * b.z.w * (c.z.z) + (a.x.x * b.z.x) * (c.z.z)
    ) by (nonlinear_arith);
    assert((g44 + a.z.x * b.w.z) * (c.z.w) == g44 * (c.z.w) + (a.z.x * b.w.z) * (c.z.w)
        && (g43 + a.y.x * b.w.y) * (c.z.w) == g43 * (c.z.w) + (a.y.x * b.w.y) * (c.z.w)
        && (a.w.x * b.w.w + a.x.x * b.w.x) * (c.z.w) == a.w.x * b.w.w * (c.z.w) + (a.x.x * b.w.x) * (c.z.w)
    ) by (nonlinear_arith);
    assert((a.x.x) * (g67 + b.z.x * c.z.z) == (a.x.x) * (g67) + (a.x.x) * (b.z.x * c.z.z)
        && (a.x.x) * (g66 + b.y.x * c.z.y) == (a.x.x) * (g66) + (a.x.x) * (b.y.x * c.z.y)
        && (a.x.x) * (b.w.x * c.z.w + b.x.x * c.z.x) == (a.x.x) * (b.w.x * c.z.w) + (a.x.x) * (b.x.x * c.z.x)
    ) by (nonlinear_arith);
    assert(a.x.x * (b.w.x * c.z.w) == a.x.x * b.w.x * c.z.w
        && a.x.x * (b.x.x * c.z.x) == a.x.x * b.x.x * c.z.x
        && a.x.x * (b.y.x * c.z.y) == a.x.x * b.y.x * c.z.y
        && a.x.x * (b.z.x * c.z.z) == a.x.x * b.z.x * c.z.z
    ) by (nonlinear_arith);
    assert((a.y.x) * (g75 + b.z.y * c.z.z) == (a.y.x) * (g75) + (a.y.x) * (b.z.y * c.z.z)
        && (a.y.x) * (g74 + b.y.y * c.z.y) == (a.y.x) * (g74) + (a.y.x) * (b.y.y * c.z.y)
        && (a.y.x) * (b.w.y * c.z.w + b.x.y * c.z.x) == (a.y.x) * (b.w.y * c.z.w) + (a.y.x) * (b.x.y * c.z.x)
    ) by (nonlinear_arith);
    assert(a.y.x * (b.w.y * c.z.w) == a.y.x * b.w.y * c.z.w
        && a.y.x * (b.x.y * c.z.x) == a.y.x * b.x.y * c.z.x
        && a.y.x * (b.y.y * c.z.y) == a.y.x * b.y.y * c.z.y
        && a.y.x * (b.z.y * c.z.z) == a.y.x * b.z.y * c.z.z
    ) by (nonlinear_arith);
    assert((a.z.x) * (g87 + b.z.z * c.z.z) == (a.z.x) * (g87) + (a.z.x) * (b.z.z * c.z.z)
        && (a.z.x) * (g86 + b.y.z * c.z.y) == (a.z.x) * (g86) + (a.z.x) * (b.y.z * c.z.y)
        && (a.z.x) * (b.w.z * c.z.w + b.x.z * c.z.x) == (a.z.x) * (b.w.z * c.z.w) + (a.z.x) * (b.x.z * c.z.x)
    ) by (nonlinear_arith);
    assert(a.z.x * (b.w.z * c.z.w) == a.z.x * b.w.z * c.z.w
        && a.z.x * (b.x.z * c.z.x) == a.z.x * b.x.z * c.z.x
        && a.z.x * (b.y.z * c.z.y) == a.z.x * b.y.z * c.z.y
        && a.z.x * (b.z.z * c.z.z) == a.z.x * b.z.z * c.z.z
    ) by (nonlinear_arith);
    assert((a.w.x) * (g99 + b.z.w * c.z.z) == (a.w.x) * (g99) + (a.w.x) * (b.z.w * c.z.z)
        && (a.w.x) * (g98 + b.y.w * c.z.y) == (a.w.x) * (g98) + (a.w.x) * (b.y.w * c.z.y)
        && (a.w.x) * (b.w.w * c.z.w + b.x.w * c.z.x) == (a.w.x) * (b.w.w * c.z.w) + (a.w.x) * (b.x.w * c.z.x)
    ) by (nonlinear_arith);
    assert(a.w.x * (b.w.w * c.z.w) == a.w.x * b.w.w * c.z.w
        && a.w.x * (b.x.w * c.z.x) == a.w.x * b.x.w * c.z.x
        && a.w.x * (b.y.w * c.z.y) == a.w.x * b.y.w * c.z.y
        && a.w.x * (b.z.w * c.z.z) == a.w.x * b.z.w * c.z.z
    ) by (nonlinear_arith);
    assert((a.x.x) * (b.x.x) == a.x.x * b.x.x);
    assert((a.y.x) * (b.x.y) == a.y.x * b.x.y);
    assert((a.x.x * b.x.x) + (a.y.x * b.x.y) == g0);
    assert((a.z.x) * (b.x.z) == a.z.x * b.x.z);
    assert((g0) + (a.z.x * b.x.z) == g1);
    assert((a.w.x) * (b.x.w) == a.w.x * b.x.w);
    assert((g1) + (a.w.x * b.x.w) == g4);
    assert((g2) * (c.z.x) == g5);
    assert((g3) * (c.z.x) == g6);
    assert((g4) * (c.z.x) == g7);
    assert((g4) * (c.z.x) == g7);
    assert((a.x.x) * (b.y.x) == a.x.x * b.y.x);
    assert((a.y.x) * (b.y.y) == a.y.x * b.y.y);
    assert((a.x.x * b.y.x) + (a.y.x * b.y.y) == g8);
    assert((a.z.x) * (b.y.z) == a.z.x * b.y.z);
    assert((g8) + (a.z.x * b.y.z) == g9);
    assert((a.w.x) * (b.y.w) == a.w.x * b.y.w);
    assert((g9) + (a.w.x * b.y.w) == g12);
    assert((g10) * (c.z.y) == g13);
    assert((g11) * (c.z.y) == g14);
    assert((g12) * (c.z.y) == g15);
    assert((g12) * (c.z.y) == g15);
    assert((g7) + (g15) == g22);
    assert((a.x.x) * (b.z.x) == a.x.x * b.z.x);
    assert((a.y.x) * (b.z.y) == a.y.x * b.z.y);
    assert((a.x.x * b.z.x) + (a.y.x * b.z.y) == g23);
    assert((a.z.x) * (b.z.z) == a.z.x * b.z.z);
    assert((g23) + (a.z.x * b.z.z) == g24);
    assert((a.w.x) * (b.z.w) == a.w.x * b.z.w);
    assert((g24) + (a.w.x * b.z.w) == g27);
    assert((g25) * (c.z.z) == g28);
    assert((g26) * (c.z.z) == g29);
    assert((g27) * (c.z.z) == g30);
    assert((g27) * (c.z.z) == g30);
    assert((g22) + (g30) == g40);
    assert((a.x.x) * (b.w.x) == a.x.x * b.w.x);
    assert((a.y.x) * (b.w.y) == a.y.x * b.w.y);
    assert((a.x.x * b.w.x) + (a.y.x * b.w.y) == g41);
    assert((a.z.x) * (b.w.z) == a.z.x * b.w.z);
    assert((g41) + (a.z.x * b.w.z) == g42);
    assert((a.w.x) * (b.w.w) == a.w.x * b.w.w);
    assert((g42) + (a.w.x * b.w.w) == g45);
    assert((g43) * (c.z.w) == g46);
    assert((g44) * (c.z.w) == g47);
    assert((g45) * (c.z.w) == g48);
    assert((g45) * (c.z.w) == g48);
    assert((g40) + (g48) == g63);
    assert((b.x.x) * (c.z.x) == b.x.x * c.z.x);
    assert((b.y.x) * (c.z.y) == b.y.x * c.z.y);
    assert((b.x.x * c.z.x) + (b.y.x * c.z.y) == g64);
    assert((b.z.x) * (c.z.z) == b.z.x * c.z.z);
    assert((g64) + (b.z.x * c.z.z) == g65);
    assert((b.w.x) * (c.z.w) == b.w.x * c.z.w);
    assert((g65) + (b.w.x * c.z.w) == g68);
    assert((a.x.x) * (g66) == g69);
    assert((a.x.x) * (g67) == g70);
    assert((a.x.x) * (g68) == g71);
    assert((a.x.x) * (g68) == g71);
    assert((b.x.y) * (c.z.x) == b.x.y * c.z.x);
    assert((b.y.y) * (c.z.y) == b.y.y * c.z.y);
    assert((b.x.y * c.z.x) + (b.y.y * c.z.y) == g72);
    assert((b.z.y) * (c.z.z) == b.z.y * c.z.z);
    assert((g72) + (b.z.y * c.z.z) == g73);
    assert((b.w.y) * (c.z.w) == b.w.y * c.z.w);
    assert((g73) + (b.w.y * c.z.w) == g76);
    assert((a.y.x) * (g74) == g77);
    assert((a.y.x) * (g75) == g78);
    assert((a.y.x) * (g76) == g79);
    assert((a.y.x) * (g76) == g79);
    assert((g71) + (g79) == g83);
    assert((b.x.z) * (c.z.x) == b.x.z * c.z.x);
    assert((b.y.z) * (c.z.y) == b.y.z * c.z.y);
    assert((b.x.z * c.z.x) + (b.y.z * c.z.y) == g84);
    assert((b.z.z) * (c.z.z) == b.z.z * c.z.z);
    assert((g84) + (b.z.z * c.z.z) == g85);
    assert((b.w.z) * (c.z.w) == b.w.z * c.z.w);
    assert((g85) + (b.w.z * c.z.w) == g88);
    assert((a.z.x) * (g86) == g89);
    assert((a.z.x) * (g87) == g90);
    assert((a.z.x) * (g88) == g91);
    assert((a.z.x) * (g88) == g91);
    assert((g83) + (g91) == g95);
    assert((b.x.w) * (c.z.x) == b.x.w * c.z.x);
    assert((b.y.w) * (c.z.y) == b.y.w * c.z.y);
    assert((b.x.w * c.z.x) + (b.y.w * c.z.y) == g96);
    assert((b.z.w) * (c.z.z) == b.z.w * c.z.z);
    assert((g96) + (b.z.w * c.z.z) == g97);
    assert((b.w.w) * (c.z.w) == b.w.w * c.z.w);
    assert((g97) + (b.w.w * c.z.w) == g100);
    assert((a.w.x) * (g98) == g49);
    assert((a.w.x) * (g99) == g50);
    assert((a.w.x) * (g100) == g51);
    assert((a.w.x) * (g100) == g51);
    assert((g95) + (g51) == g63);
}

proof fn assoc4_part_z_y(a: M4, b: M4, c: M4)
    ensures
        m4_mul(m4_mul(a, b), c).z.y == m4_mul(a, m4_mul(b, c)).z.y,
{
    let g0: int = a.x.y * b.x.x + a.y.y * b.x.y;
    let g1: int = g0 + a.z.y * b.x.z;
    let g2: int = a.w.y * b.x.w + a.x.y * b.x.x;
    let g3: int = g2 + a.y.y * b.x.y;
    let g4: int = g3 + a.z.y * b.x.z;
    let g5: int = a.w.y * b.x.w * c.z.x + a.x.y * b.x.x * c.z.x;
    let g6: int = g5 + a.y.y * b.x.y * c.z.x;
    let g7: int = g6 + a.z.y * b.x.z * c.z.x;
    let g8: int = a.x.y * b.y.x + a.y.y * b.y.y;
    let g9: int = g8 + a.z.y * b.y.z;
    let g10: int = a.w.y * b.y.w + a.x.y * b.y.x;
    let g11: int = g10 + a.y.y * b.y.y;
    let g12: int = g11 + a.z.y * b.y.z;
    let g13: int = a.w.y * b.y.w * c.z.y + a.x.y * b.y.x * c.z.y;
    let g14: int = g13 + a.y.y * b.y.y * c.z.y;
    let g15: int = g14 + a.z.y * b.y.z * c.z.y;
    let g16: int = a.w.y * b.x.w * c.z.x + a.w.y * b.y.w * c.z.y;
    let g17: int = g16 + a.x.y * b.x.x * c.z.x;
    let g18: int = g17 + a.x.y * b.y.x * c.z.y;
    let g19: int = g18 + a.y.y * b.x.y * c.z.x;
    let g20: int = g19 + a.y.y * b.y.y * c.z.y;
    let g21: int = g20 + a.z.y * b.x.z * c.z.x;
    let g22: int = g21 + a.z.y * b.y.z * c.z.y;
    let g23: int = a.x.y * b.z.x + a.y.y * b.z.y;
    let g24: int = g23 + a.z.y * b.z.z;
    let g25: int = a.w.y * b.z.w + a.x.y * b.z.x;
    let g26: int = g25 + a.y.y * b.z.y;
    let g27: int = g26 + a.z.y * b.z.z;
    let g28: int = a.w.y * b.z.w * c.z.z + a.x.y * b.z.x * c.z.z;
    let g29: int = g28 + a.y.y * b.z.y * c.z.z;
    let g30: int = g29 + a.z.y * b.z.z * c.z.z;
    let g31: int = g16 + a.w.y * b.z.w * c.z.z;
    let g32: int = g31 + a.x.y * b.x.x * c.z.x;
    let g33: int = g32 + a.x.y * b.y.x * c.z.y;
    let g34: int = g33 + a.x.y * b.z.x * c.z.z;
    let g35: int = g34 + a.y.y * b.x.y * c.z.x;
    let g36: int = g35 + a.y.y * b.y.y * c.z.y;
    let g37: int = g36 + a.y.y * b.z.y * c.z.z;
    let g38: int = g37 + a.z.y * b.x.z * c.z.x;
    let g39: int = g38 + a.z.y * b.y.z * c.z.y;
    let g40: int = g39 + a.z.y * b.z.z * c.z.z;
    let g41: int = a.x.y * b.w.x + a.y.y * b.w.y;
    let g42: int = g41 + a.z.y * b.w.z;
    let g43: int = a.w.y * b.w.w + a.x.y * b.w.x;
    let g44: int = g43 + a.y.y * b.w.y;
    let g45: int = g44 + a.z.y * b.w.z;
    let g46: int = a.w.y * b.w.w * c.z.w + a.x.y * b.w.x * c.z.w;
    let g47: int = g46 + a.y.y * b.w.y * c.z.w;
    let g48: int = g47 + a.z.y * b.w.z * c.z.w;
    let g49: int = a.w.y * b.w.w * c.z.w + a.w.y * b.x.w * c.z.x;
    let g50: int = g49 + a.w.y * b.y.w * c.z.y;
    let g51: int = g50 + a.w.y * b.z.w * c.z.z;
    let g52: int = g51 + a.x.y * b.w.x * c.z.w;
    let g53: int = g52 + a.x.y * b.x.x * c.z.x;
    let g54: int = g53 + a.x.y * b.y.x * c.z.y;
    let g55: int = g54 + a.x.y * b.z.x * c.z.z;
    let g56: int = g55 + a.y.y * b.w.y * c.z.w;
    let g57: int = g56 + a.y.y * b.x.y * c.z.x;
    let g58: int = g57 + a.y.y * b.y.y * c.z.y;
    let g59: int = g58 + a.y.y * b.z.y * c.z.z;
    let g60: int = g59 + a.z.y * b.w.z * c.z.w;
    let g61: int = g60 + a.z.y * b.x.z * c.z.x;
    let g62: int = g61 + a.z.y * b.y.z * c.z.y;
    let g63: int = g62 + a.z.y * b.z.z * c.z.z;
    let g64: int = b.x.x * c.z.x + b.y.x * c.z.y;
    let g65: int = g64 + b.z.x * c.z.z;
    let g66: int = b.w.x * c.z.w + b.x.x * c.z.x;
    let g67: int = g66 + b.y.x * c.z.y;
    let g68: int = g67 + b.z.x * c.z.z;
    let g69: int = a.x.y * b.w.x * c.z.w + a.x.y * b.x.x * c.z.x;
    let g70: int = g69 + a.x.y * b.y.x * c.z.y;
    let g71: int = g70 + a.x.y * b.z.x * c.z.z;
    let g72: int = b.x.y * c.z.x + b.y.y * c.z.y;
    let g73: int = g72 + b.z.y * c.z.z;
    let g74: int = b.w.y * c.z.w + b.x.y * c.z.x;
    let g75: int = g74 + b.y.y * c.z.y;
    let g76: int = g75 + b.z.y * c.z.z;
    let g77: int = a.y.y * b.w.y * c.z.w + a.y.y * b.x.y * c.z.x;
    let g78: int = g77 + a.y.y * b.y.y * c.z.y;
    let g79: int = g78 + a.y.y * b.z.y * c.z.z;
    let g80: int = g71 + a.y.y * b.w.y * c.z.w;
    let g81: int = g80 + a.y.y * b.x.y * c.z.x;
    let g82: int = g81 + a.y.y * b.y.y * c.z.y;
    let g83: int = g82 + a.y.y * b.z.y * c.z.z;
    let g84: int = b.x.z * c.z.x + b.y.z * c.z.y;
    let g85: int = g84 + b.z.z * c.z.z;
    let g86: int = b.w.z * c.z.w + b.x.z * c.z.x;
    let g87: int = g86 + b.y.z * c.z.y;
    let g88: int = g87 + b.z.z * c.z.z;
    let g89: int = a.z.y * b.w.z * c.z.w + a.z.y * b.x.z * c.z.x;
    let g90: int = g89 + a.z.y * b.y.z * c.z.y;
    let g91: int = g90 + a.z.y * b.z.z * c.z.z;
    let g92: int = g83 + a.z.y * b.w.z * c.z.w;
    let g93: int = g92 + a.z.y * b.x.z * c.z.x;
    let g94: int = g93 + a.z.y * b.y.z * c.z.y;
    let g95: int = g94 + a.z.y * b.z.z * c.z.z;
    let g96: int = b.x.w * c.z.x + b.y.w * c.z.y;
    let g97: int = g96 + b.z.w * c.z.z;
    let g98: int = b.w.w * c.z.w + b.x.w * c.z.x;
    let g99: int = g98 + b.y.w * c.z.y;
    let g100: int = g99 + b.z.w * c.z.z;
    assert((g3 + a.z.y * b.x.z) * (c.z.x) == g3 * (c.z.x) + (a.z.y * b.x.z) * (c.z.x)
        && (g2 + a.y.y * b.x.y) * (c.z.x) == g2 * (c.z.x) + (a.y.y * b.x.y) * (c.z.x)
        && (a.w.y * b.x.w + a.x.y * b.x.x) * (c.z.x) == a.w.y * b.x.w * (c.z.x) + (a.x.y * b.x.x) * (c.z.x)
    ) by (nonlinear_arith);
    assert((g11 + a.z.y * b.y.z) * (c.z.y) == g11 * (c.z.y) + (a.z.y * b.y.z) * (c.z.y)
        && (g10 + a.y.y * b.y.y) * (c.z.y) == g10 * (c.z.y) + (a.y.y * b.y.y) * (c.z.y)
        && (a.w.y * b.y.w + a.x.y * b.y.x) * (c.z.y) == a.w.y * b.y.w * (c.z.y) + (a.x.y * b.y.x) * (c.z.y)
    ) by (nonlinear_arith);
    assert((g26 + a.z.y * b.z.z) * (c.z.z) == g26 * (c.z.z) + (a.z.y * b.z.z) * (c.z.z)
        && (g25 + a.y.y * b.z.y) * (c.z.z) == g25 * (c.z.z) + (a.y.y * b.z.y) * (c.z.z)
        && (a.w.y * b.z.w + a.x.y * b.z.x) * (c.z.z) == a.w.y * b.z.w * (c.z.z) + (a.x.y * b.z.x) * (c.z.z)
    ) by (nonlinear_arith);
    assert((g44 + a.z.y * b.w.z) * (c.z.w) == g44 * (c.z.w) + (a.z.y * b.w.z) * (c.z.w)
        && (g43 + a.y.y * b.w.y) * (c.z.w) == g43 * (c.z.w) + (a.y.y * b.w.y) * (c.z.w)
        && (a.w.y * b.w.w + a.x.y * b.w.x) * (c.z.w) == a.w.y * b.w.w * (c.z.w) + (a.x.y * b.w.x) * (c.z.w)
    ) by (nonlinear_arith);
    assert((a.x.y) * (g67 + b.z.x * c.z.z) == (a.x.y) * (g67) + (a.x.y) * (b.z.x * c.z.z)
        && (a.x.y) * (g66 + b.y.x * c.z.y) == (a.x.y) * (g66) + (a.x.y) * (b.y.x * c.z.y)
        && (a.x.y) * (b.w.x * c.z.w + b.x.x * c.z.x) == (a.x.y) * (b.w.x * c.z.w) + (a.x.y) * (b.x.x * c.z.x)
    ) by (nonlinear_arith);
    assert(a.x.y * (b.w.x * c.z.w) == a.x.y * b.w.x * c.z.w
        && a.x.y * (b.x.x * c.z.x) == a.x.y * b.x.x * c.z.x
        && a.x.y * (b.y.x * c.z.y) == a.x.y * b.y.x * c.z.y
        && a.x.y * (b.z.x * c.z.z) == a.x.y * b.z.x * c.z.z
    ) by (nonlinear_arith);
    assert((a.y.y) * (g75 + b.z.y * c.z.z) == (a.y.y) * (g75) + (a.y.y) * (b.z.y * c.z.z)
        && (a.y.y) * (g74 + b.y.y * c.z.y) == (a.y.y) * (g74) + (a.y.y) * (b.y.y * c.z.y)
        && (a.y.y) * (b.w.y * c.z.w + b.x.y * c.z.x) == (a.y.y) * (b.w.y * c.z.w) + (a.y.y) * (b.x.y * c.z.x)
    ) by (nonlinear_arith);
    assert(a.y.y * (b.w.y * c.z.w) == a.y.y * b.w.y * c.z.w
        && a.y.y * (b.x.y * c.z.x) == a.y.y * b.x.y * c.z.x
        && a.y.y * (b.y.y * c.z.y) == a.y.y * b.y.y * c.z.y
        && a.y.y * (b.z.y * c.z.z) == a.y.y * b.z.y * c.z.z
    ) by (nonlinear_arith);
    assert((a.z.y) * (g87 + b.z.z * c.z.z) == (a.z.y) * (g87) + (a.z.y) * (b.z.z * c.z.z)
        && (a.z.y) * (g86 + b.y.z * c.z.y) == (a.z.y) * (g86) + (a.z.y) * (b.y.z * c.z.y)
        && (a.z.y) * (b.w.z * c.z.w + b.x.z * c.z.x) == (a.z.y) * (b.w.z * c.z.w) + (a.z.y) * (b.x.z * c.z.x)
    ) by (nonlinear_arith);
    assert(a.z.y * (b.w.z * c.z.w) == a.z.y * b.w.z * c.z.w
        && a.z.y * (b.x.z * c.z.x) == a.z.y * b.x.z * c.z.x
        && a.z.y * (b.y.z * c.z.y) == a.z.y * b.y.z * c.z.y
        && a.z.y * (b.z.z * c.z.z) == a.z.y * b.z.z * c.z.z
    ) by (nonlinear_arith);
    assert((a.w.y) * (g99 + b.z.w * c.z.z) == (a.w.y) * (g99) + (a.w.y) * (b.z.w * c.z.z)
        && (a.w.y) * (g98 + b.y.w * c.z.y) == (a.w.y) * (g98) + (a.w.y) * (b.y.w * c.z.y)
        && (a.w.y) * (b.w.w * c.z.w + b.x.w * c.z.x) == (a.w.y) * (b.w.w * c.z.w) + (a.w.y) * (b.x.w * c.z.x)
    ) by (nonlinear_arith);
    assert(a.w.y * (b.w.w * c.z.w) == a.w.y * b.w.w * c.z.w
        && a.w.y * (b.x.w * c.z.x) == a.w.y * b.x.w * c.z.x
        && a.w.y * (b.y.w * c.z.y) == a.w.y * b.y.w * c.z.y
        && a.w.y * (b.z.w * c.z.z) == a.w.y * b.z.w * c.z.z
    ) by (nonlinear_arith);
    assert((a.x.y) * (b.x.x) == a.x.y * b.x.x);
    assert((a.y.y) * (b.x.y) == a.y.y * b.x.y);
    assert((a.x.y * b.x.x) + (a.y.y * b.x.y) == g0);
    assert((a.z.y) * (b.x.z) == a.z.y * b.x.z);
    assert((g0) + (a.z.y * b.x.z) == g1);
    assert((a.w.y) * (b.x.w) == a.w.y * b.x.w);
    assert((g1) + (a.w.y * b.x.w) == g4);
    assert((g2) * (c.z.x) == g5);
    assert((g3) * (c.z.x) == g6);
    assert((g4) * (c.z.x) == g7);
    assert((g4) * (c.z.x) == g7);
    assert((a.x.y) * (b.y.x) == a.x.y * b.y.x);
    assert((a.y.y) * (b.y.y) == a.y.y * b.y.y);
    assert((a.x.y * b.y.x) + (a.y.y * b.y.y) == g8);
    assert((a.z.y) * (b.y.z) == a.z.y * b.y.z);
    assert((g8) + (a.z.y * b.y.z) == g9);
    assert((a.w.y) * (b.y.w) == a.w.y * b.y.w);
    assert((g9) + (a.w.y * b.y.w) == g12);
    assert((g10) * (c.z.y) == g13);
    assert((g11) * (c.z.y) == g14);
    assert((g12) * (c.z.y) == g15);
    assert((g12) * (c.z.y) == g15);
    assert((g7) + (g15) == g22);
    assert((a.x.y) * (b.z.x) == a.x.y * b.z.x);
    assert((a.y.y) * (b.z.y) == a.y.y * b.z.y);
    assert((a.x.y * b.z.x) + (a.y.y * b.z.y) == g23);
    assert((a.z.y) * (b.z.z) == a.z.y * b.z.z);
    assert((g23) + (a.z.y * b.z.z) == g24);
    assert((a.w.y) * (b.z.w) == a.w.y * b.z.w);
    assert((g24) + (a.w.y * b.z.w) == g27);
    assert((g25) * (c.z.z) == g28);
    assert((g26) * (c.z.z) == g29);
    assert((g27) * (c.z.z) == g30);
    assert((g27) * (c.z.z) == g30);
    assert((g22) + (g30) == g40);
    assert((a.x.y) * (b.w.x) == a.x.y * b.w.x);
    assert((a.y.y) * (b.w.y) == a.y.y * b.w.y);
    assert((a.x.y * b.w.x) + (a.y.y * b.w.y) == g41);
    assert((a.z.y) * (b.w.z) == a.z.y * b.w.z);
    assert((g41) + (a.z.y * b.w.z) == g42);
    assert((a.w.y) * (b.w.w) == a.w.y * b.w.w);
    assert((g42) + (a.w.y * b.w.w) == g45);
    assert((g43) * (c.z.w) == g46);
    assert((g44) * (c.z.w) == g47);
    assert((g45) * (c.z.w) == g48);
    assert((g45) * (c.z.w) == g48);
    assert((g40) + (g48) == g63);
    assert((b.x.x) * (c.z.x) == b.x.x * c.z.x);
    assert((b.y.x) * (c.z.y) == b.y.x * c.z.y);
    assert((b.x.x * c.z.x) + (b.y.x * c.z.y) == g64);
    assert((b.z.x) * (c.z.z) == b.z.x * c.z.z);
    assert((g64) + (b.z.x * c.z.z) == g65);
    assert((b.w.x) * (c.z.w) == b.w.x * c.z.w);
    assert((g65) + (b.w.x * c.z.w) == g68);
    assert((a.x.y) * (g66) == g69);
    assert((a.x.y) * (g67) == g70);
    assert((a.x.y) * (g68) == g71);
    assert((a.x.y) * (g68) == g71);
    assert((b.x.y) * (c.z.x) == b.x.y * c.z.x);
    assert((b.y.y) * (c.z.y) == b.y.y * c.z.y);
    assert((b.x.y * c.z.x) + (b.y.y * c.z.y) == g72);
    assert((b.z.y) * (c.z.z) == b.z.y * c.z.z);
    assert((g72) + (b.z.y * c.z.z) == g73);
    assert((b.w.y) * (c.z.w) == b.w.y * c.z.w);
    assert((g73) + (b.w.y * c.z.w) == g76);
    assert((a.y.y) * (g74) == g77);
    assert((a.y.y) * (g75) == g78);
    assert((a.y.y) * (g76) == g79);
    assert((a.y.y) * (g76) == g79);
    assert((g71) + (g79) == g83);
    assert((b.x.z) * (c.z.x) == b.x.z * c.z.x);
    assert((b.y.z) * (c.z.y) == b.y.z * c.z.y);
    assert((b.x.z * c.z.x) + (b.y.z * c.z.y) == g84);
    assert((b.z.z) * (c.z.z) == b.z.z * c.z.z);
    assert((g84) + (b.z.z * c.z.z) == g85);
    assert((b.w.z) * (c.z.w) == b.w.z * c.z.w);
    assert((g85) + (b.w.z * c.z.w) == g88);
    assert((a.z.y) * (g86) == g89);
    assert((a.z.y) * (g87) == g90);
    assert((a.z.y) * (g88) == g91);
    assert((a.z.y) * (g88) == g91);
    assert((g83) + (g91) == g95);
    assert((b.x.w) * (c.z.x) == b.x.w * c.z.x);
    assert((b.y.w) * (c.z.y) == b.y.w * c.z.y);
    assert((b.x.w * c.z.x) + (b.y.w * c.z.y) == g96);
    assert((b.z.w) * (c.z.z) == b.z.w * c.z.z);
    assert((g96) + (b.z.w * c.z.z) == g97);
    assert((b.w.w) * (c.z.w) == b.w.w * c.z.w);
    assert((g97) + (b.w.w * c.z.w) == g100);
    assert((a.w.y) * (g98) == g49);
    assert((a.w.y) * (g99) == g50);
    assert((a.w.y) * (g100) == g51);
    assert((a.w.y) * (g100) == g51);
    assert((g95) + (g51) == g63);
}

proof fn assoc4_part_z_z(a: M4, b: M4, c: M4)
    ensures
        m4_mul(m4_mul(a, b), c).z.z == m4_mul(a, m4_mul(b, c)).z.z,
{
    let g0: int = a.x.z * b.x.x + a.y.z * b.x.y;
    let g1: int = g0 + a.z.z * b.x.z;
    let g2: int = a.w.z * b.x.w + a.x.z * b.x.x;
    let g3: int = g2 + a.y.z * b.x.y;
    let g4: int = g3 + a.z.z * b.x.z;
    let g5: int = a.w.z * b.x.w * c.z.x + a.x.z * b.x.x * c.z.x;
    let g6: int = g5 + a.y.z * b.x.y * c.z.x;
    let g7: int = g6 + a.z.z * b.x.z * c.z.x;
    let g8: int = a.x.z * b.y.x + a.y.z * b.y.y;
    let g9: int = g8 + a.z.z * b.y.z;
    let g10: int = a.w.z * b.y.w + a.x.z * b.y.x;
    let g11: int = g10 + a.y.z * b.y.y;
    let g12: int = g11 + a.z.z * b.y.z;
    let g13: int = a.w.z * b.y.w * c.z.y + a.x.z * b.y.x * c.z.y;
    let g14: int = g13 + a.y.z * b.y.y * c.z.y;
    let g15: int = g14 + a.z.z * b.y.z * c.z.y;
    let g16: int = a.w.z * b.x.w * c.z.x + a.w.z * b.y.w * c.z.y;
    let g17: int = g16 + a.x.z * b.x.x * c.z.x;
    let g18: int = g17 + a.x.z * b.y.x * c.z.y;
    let g19: int = g18 + a.y.z * b.x.y * c.z.x;
    let g20: int = g19 + a.y.z * b.y.y * c.z.y;
    let g21: int = g20 + a.z.z * b.x.z * c.z.x;
    let g22: int = g21 + a.z.z * b.y.z * c.z.y;
    let g23: int = a.x.z * b.z.x + a.y.z * b.z.y;
    let g24: int = g23 + a.z.z * b.z.z;
    let g25: int = a.w.z * b.z.w + a.x.z * b.z.x;
    let g26: int = g25 + a.y.z * b.z.y;
    let g27: int = g26 + a.z.z * b.z.z;
    let g28: int = a.w.z * b.z.w * c.z.z + a.x.z * b.z.x * c.z.z;
    let g29: int = g28 + a.y.z * b.z.y * c.z.z;
    let g30: int = g29 + a.z.z * b.z.z * c.z.z;
    let g31: int = g16 + a.w.z * b.z.w * c.z.z;
    let g32: int = g31 + a.x.z * b.x.x * c.z.x;
    let g33: int = g32 + a.x.z * b.y.x * c.z.y;
    let g34: int = g33 + a.x.z * b.z.x * c.z.z;
    let g35: int = g34 + a.y.z * b.x.y * c.z.x;
    let g36: int = g35 + a.y.z * b.y.y * c.z.y;
    let g37: int = g36 + a.y.z * b.z.y * c.z.z;
    let g38: int = g37 + a.z.z * b.x.z * c.z.x;
    let g39: int = g38 + a.z.z * b.y.z * c.z.y;
    let g40: int = g39 + a.z.z * b.z.z * c.z.z;
    let g41: int = a.x.z * b.w.x + a.y.z * b.w.y;
    let g42: int = g41 + a.z.z * b.w.z;
    let g43: int = a.w.z * b.w.w + a.x.z * b.w.x;
    let g44: int = g43 + a.y.z * b.w.y;
    let g45: int = g44 + a.z.z * b.w.z;
    let g46: int = a.w.z * b.w.w * c.z.w + a.x.z * b.w.x * c.z.w;
    let g47: int = g46 + a.y.z * b.w.y * c.z.w;
    let g48: int = g47 + a.z.z * b.w.z * c.z.w;
    let g49: int = a.w.z * b.w.w * c.z.w + a.w.z * b.x.w * c.z.x;
    let g50: int = g49 + a.w.z * b.y.w * c.z.y;
    let g51: int = g50 + a.w.z * b.z.w * c.z.z;
    let g52: int = g51 + a.x.z * b.w.x * c.z.w;
    let g53: int = g52 + a.x.z * b.x.x * c.z.x;
    let g54: int = g53 + a.x.z * b.y.x * c.z.y;
    let g55: int = g54 + a.x.z * b.z.x * c.z.z;
    let g56: int = g55 + a.y.z * b.w.y * c.z.w;
    let g57: int = g56 + a.y.z * b.x.y * c.z.x;
    let g58: int = g57 + a.y.z * b.y.y * c.z.y;
    let g59: int = g58 + a.y.z * b.z.y * c.z.z;
    let g60: int = g59 + a.z.z * b.w.z * c.z.w;
    let g61: int = g60 + a.z.z * b.x.z * c.z.x;
    let g62: int = g61 + a.z.z * b.y.z * c.z.y;
    let g63: int = g62 + a.z.z * b.z.z * c.z.z;
    let g64: int = b.x.x * c.z.x + b.y.x * c.z.y;
    let g65: int = g64 + b.z.x * c.z.z;
    let g66: int = b.w.x * c.z.w + b.x.x * c.z.x;
    let g67: int = g66 + b.y.x * c.z.y;
    let g68: int = g67 + b.z.x * c.z.z;
    let g69: int = a.x.z * b.w.x * c.z.w + a.x.z * b.x.x * c.z.x;
    let g70: int = g69 + a.x.z * b.y.x * c.z.y;
    let g71: int = g70 + a.x.z * b.z.x * c.z.z;
    let g72: int = b.x.y * c.z.x + b.y.y * c.z.y;
    let g73: int = g72 + b.z.y * c.z.z;
    let g74: int = b.w.y * c.z.w + b.x.y * c.z.x;
    let g75: int = g74 + b.y.y * c.z.y;
    let g76: int = g75 + b.z.y * c.z.z;
    let g77: int = a.y.z * b.w.y * c.z.w + a.y.z * b.x.y * c.z.x;
    let g78: int = g77 + a.y.z * b.y.y * c.z.y;
    let g79: int = g78 + a.y.z * b.z.y * c.z.z;
    let g80: int = g71 + a.y.z * b.w.y * c.z.w;
    let g81: int = g80 + a.y.z * b.x.y * c.z.x;
    let g82: int = g81 + a.y.z * b.y.y * c.z.y;
    let g83: int = g82 + a.y.z * b.z.y * c.z.z;
    let g84: int = b.x.z * c.z.x + b.y.z * c.z.y;
    let g85: int = g84 + b.z.z * c.z.z;
    let g86: int = b.w.z * c.z.w + b.x.z * c.z.x;
    let g87: int = g86 + b.y.z * c.z.y;
    let g88: int = g87 + b.z.z * c.z.z;
    let g89: int = a.z.z * b.w.z * c.z.w + a.z.z * b.x.z * c.z.x;
    let g90: int = g89 + a.z.z * b.y.z * c.z.y;
    let g91: int = g90 + a.z.z * b.z.z * c.z.z;
    let g92: int = g83 + a.z.z * b.w.z * c.z.w;
    let g93: int = g92 + a.z.z * b.x.z * c.z.x;
    let g94: int = g93 + a.z.z * b.y.z * c.z.y;
    let g95: int = g94 + a.z.z * b.z.z * c.z.z;
    let g96: int = b.x.w * c.z.x + b.y.w * c.z.y;
    let g97: int = g96 + b.z.w * c.z.z;
    let g98: int = b.w.w * c.z.w + b.x.w * c.z.x;
    let g99: int = g98 + b.y.w * c.z.y;
    let g100: int = g99 + b.z.w * c.z.z;
    assert((g3 + a.z.z * b.x.z) * (c.z.x) == g3 * (c.z.x) + (a.z.z * b.x.z) * (c.z.x)
        && (g2 + a.y.z * b.x.y) * (c.z.x) == g2 * (c.z.x) + (a.y.z * b.x.y) * (c.z.x)
        && (a.w.z * b.x.w + a.x.z * b.x.x) * (c.z.x) == a.w.z * b.x.w * (c.z.x) + (a.x.z * b.x.x) * (c.z.x)
    ) by (nonlinear_arith);
    assert((g11 + a.z.z * b.y.z) * (c.z.y) == g11 * (c.z.y) + (a.z.z * b.y.z) * (c.z.y)
        && (g10 + a.y.z * b.y.y) * (c.z.y) == g10 * (c.z.y) + (a.y.z * b.y.y) * (c.z.y)
        && (a.w.z * b.y.w + a.x.z * b.y.x) * (c.z.y) == a.w.z * b.y.w * (c.z.y) + (a.x.z * b.y.x) * (c.z.y)
    ) by (nonlinear_arith);
    assert((g26 + a.z.z * b.z.z) * (c.z.z) == g26 * (c.z.z) + (a.z.z * b.z.z) * (c.z.z)
        && (g25 + a.y.z * b.z.y) * (c.z.z) == g25 * (c.z.z) + (a.y.z * b.z.y) * (c.z.z)
        && (a.w.z * b.z.w + a.x.z * b.z.x) * (c.z.z) == a.w.z * b.z.w * (c.z.z) + (a.x.z * b.z.x) * (c.z.z)
    ) by (nonlinear_arith);
    assert((g44 + a.z.z * b.w.z) * (c.z.w) == g44 * (c.z.w) + (a.z.z * b.w.z) * (c.z.w)
        && (g43 + a.y.z * b.w.y) * (c.z.w) == g43 * (c.z.w) + (a.y.z * b.w.y) * (c.z.w)
        && (a.w.z * b.w.w + a.x.z * b.w.x) * (c.z.w) == a.w.z * b.w.w * (c.z.w) + (a.x.z * b.w.x) * (c.z.w)
    ) by (nonlinear_arith);
    assert((a.x.z) * (g67 + b.z.x * c.z.z) == (a.x.z) * (g67) + (a.x.z) * (b.z.x * c.z.z)
        && (a.x.z) * (g66 + b.y.x * c.z.y) == (a.x.z) * (g66) + (a.x.z) * (b.y.x * c.z.y)
        && (a.x.z) * (b.w.x * c.z.w + b.x.x * c.z.x) == (a.x.z) * (b.w.x * c.z.w) + (a.x.z) * (b.x.x * c.z.x)
    ) by (nonlinear_arith);
    assert(a.x.z * (b.w.x * c.z.w) == a.x.z * b.w.x * c.z.w
        && a.x.z * (b.x.x * c.z.x) == a.x.z * b.x.x * c.z.x
        && a.x.z * (b.y.x * c.z.y) == a.x.z * b.y.x * c.z.y
        && a.x.z * (b.z.x * c.z.z) == a.x.z * b.z.x * c.z.z
    ) by (nonlinear_arith);
    assert((a.y.z) * (g75 + b.z.y * c.z.z) == (a.y.z) * (g75) + (a.y.z) * (b.z.y * c.z.z)
        && (a.y.z) * (g74 + b.y.y * c.z.y) == (a.y.z) * (g74) + (a.y.z) * (b.y.y * c.z.y)
        && (a.y.z) * (b.w.y * c.z.w + b.x.y * c.z.x) == (a.y.z) * (b.w.y * c.z.w) + (a.y.z) * (b.x.y * c.z.x)
    ) by (nonlinear_arith);
    assert(a.y.z * (b.w.y * c.z.w) == a.y.z * b.w.y * c.z.w
        && a.y.z * (b.x.y * c.z.x) == a.y.z * b.x.y * c.z.x
        && a.y.z * (b.y.y * c.z.y) == a.y.z * b.y.y * c.z.y
        && a.y.z * (b.z.y * c.z.z) == a.y.z * b.z.y * c.z.z
    ) by (nonlinear_arith);
    assert((a.z.z) * (g87 + b.z.z * c.z.z) == (a.z.z) * (g87) + (a.z.z) * (b.z.z * c.z.z)
        && (a.z.z) * (g86 + b.y.z * c.z.y) == (a.z.z) * (g86) + (a.z.z) * (b.y.z * c.z.y)
        && (a.z.z) * (b.w.z * c.z.w + b.x.z * c.z.x) == (a.z.z) * (b.w.z * c.z.w) + (a.z.z) * (b.x.z * c.z.x)
    ) by (nonlinear_arith);
    assert(a.z.z * (b.w.z * c.z.w) == a.z.z * b.w.z * c.z.w
        && a.z.z * (b.x.z * c.z.x) == a.z.z * b.x.z * c.z.x
        && a.z.z * (b.y.z * c.z.y) == a.z.z * b.y.z * c.z.y
        && a.z.z * (b.z.z * c.z.z) == a.z.z * b.z.z * c.z.z
    ) by (nonlinear_arith);
    assert((a.w.z) * (g99 + b.z.w * c.z.z) == (a.w.z) * (g99) + (a.w.z) * (b.z.w * c.z.z)
        && (a.w.z) * (g98 + b.y.w * c.z.y) == (a.w.z) * (g98) + (a.w.z) * (b.y.w * c.z.y)
        && (a.w.z) * (b.w.w * c.z.w + b.x.w * c.z.x) == (a.w.z) * (b.w.w * c.z.w) + (a.w.z) * (b.x.w * c.z.x)
    ) by (nonlinear_arith);
    assert(a.w.z * (b.w.w * c.z.w) == a.w.z * b.w.w * c.z.w
        && a.w.z * (b.x.w * c.z.x) == a.w.z * b.x.w * c.z.x
        && a.w.z * (b.y.w * c.z.y) == a.w.z * b.y.w * c.z.y
        && a.w.z * (b.z.w * c.z.z) == a.w.z * b.z.w * c.z.z
    ) by (nonlinear_arith);
    assert((a.x.z) * (b.x.x) == a.x.z * b.x.x);
    assert((a.y.z) * (b.x.y) == a.y.z * b.x.y);
    assert((a.x.z * b.x.x) + (a.y.z * b.x.y) == g0);
    assert((a.z.z) * (b.x.z) == a.z.z * b.x.z);
    assert((g0) + (a.z.z * b.x.z) == g1);
    assert((a.w.z) * (b.x.w) == a.w.z * b.x.w);
    assert((g1) + (a.w.z * b.x.w) == g4);
    assert((g2) * (c.z.x) == g5);
    assert((g3) * (c.z.x) == g6);
    assert((g4) * (c.z.x) == g7);
    assert((g4) * (c.z.x) == g7);
    assert((a.x.z) * (b.y.x) == a.x.z * b.y.x);
    assert((a.y.z) * (b.y.y) == a.y.z * b.y.y);
    assert((a.x.z * b.y.x) + (a.y.z * b.y.y) == g8);
    assert((a.z.z) * (b.y.z) == a.z.z * b.y.z);
    assert((g8) + (a.z.z * b.y.z) == g9);
    assert((a.w.z) * (b.y.w) == a.w.z * b.y.w);
    assert((g9) + (a.w.z * b.y.w) == g12);
    assert((g10) * (c.z.y) == g13);
    assert((g11) * (c.z.y) == g14);
    assert((g12) * (c.z.y) == g15);
    assert((g12) * (c.z.y) == g15);
    assert((g7) + (g15) == g22);
    assert((a.x.z) * (b.z.x) == a.x.z * b.z.x);
    assert((a.y.z) * (b.z.y) == a.y.z * b.z.y);
    assert((a.x.z * b.z.x) + (a.y.z * b.z.y) == g23);
    assert((a.z.z) * (b.z.z) == a.z.z * b.z.z);
    assert((g23) + (a.z.z * b.z.z) == g24);
    assert((a.w.z) * (b.z.w) == a.w.z * b.z.w);
    assert((g24) + (a.w.z * b.z.w) == g27);
    assert((g25) * (c.z.z) == g28);
    assert((g26) * (c.z.z) == g29);
    assert((g27) * (c.z.z) == g30);
    assert((g27) * (c.z.z) == g30);
    assert((g22) + (g30) == g40);
    assert((a.x.z) * (b.w.x) == a.x.z * b.w.x);
    assert((a.y.z) * (b.w.y) == a.y.z * b.w.y);
    assert((a.x.z * b.w.x) + (a.y.z * b.w.y) == g41);
    assert((a.z.z) * (b.w.z) == a.z.z * b.w.z);
    assert((g41) + (a.z.z * b.w.z) == g42);
    assert((a.w.z) * (b.w.w) == a.w.z * b.w.w);
    assert((g42) + (a.w.z * b.w.w) == g45);
    assert((g43) * (c.z.w) == g46);
    assert((g44) * (c.z.w) == g47);
    assert((g45) * (c.z.w) == g48);
    assert((g45) * (c.z.w) == g48);
    assert((g40) + (g48) == g63);
    assert((b.x.x) * (c.z.x) == b.x.x * c.z.x);
    assert((b.y.x) * (c.z.y) == b.y.x * c.z.y);
    assert((b.x.x * c.z.x) + (b.y.x * c.z.y) == g64);
    assert((b.z.x) * (c.z.z) == b.z.x * c.z.z);
    assert((g64) + (b.z.x * c.z.z) == g65);
    assert((b.w.x) * (c.z.w) == b.w.x * c.z.w);
    assert((g65) + (b.w.x * c.z.w) == g68);
    assert((a.x.z) * (g66) == g69);
    assert((a.x.z) * (g67) == g70);
    assert((a.x.z) * (g68) == g71);
    assert((a.x.z) * (g68) == g71);
    assert((b.x.y) * (c.z.x) == b.x.y * c.z.x);
    assert((b.y.y) * (c.z.y) == b.y.y * c.z.y);
    assert((b.x.y * c.z.x) + (b.y.y * c.z.y) == g72);
    assert((b.z.y) * (c.z.z) == b.z.y * c.z.z);
    assert((g72) + (b.z.y * c.z.z) == g73);
    assert((b.w.y) * (c.z.w) == b.w.y * c.z.w);
    assert((g73) + (b.w.y * c.z.w) == g76);
    assert((a.y.z) * (g74) == g77);
    assert((a.y.z) * (g75) == g78);
    assert((a.y.z) * (g76) == g79);
    assert((a.y.z) * (g76) == g79);
    assert((g71) + (g79) == g83);
    assert((b.x.z) * (c.z.x) == b.x.z * c.z.x);
    assert((b.y.z) * (c.z.y) == b.y.z * c.z.y);
    assert((b.x.z * c.z.x) + (b.y.z * c.z.y) == g84);
    assert((b.z.z) * (c.z.z) == b.z.z * c.z.z);
    assert((g84) + (b.z.z * c.z.z) == g85);
    assert((b.w.z) * (c.z.w) == b.w.z * c.z.w);
    assert((g85) + (b.w.z * c.z.w) == g88);
    assert((a.z.z) * (g86) == g89);
    assert((a.z.z) * (g87) == g90);
    assert((a.z.z) * (g88) == g91);
    assert((a.z.z) * (g88) == g91);
    assert((g83) + (g91) == g95);
    assert((b.x.w) * (c.z.x) == b.x.w * c.z.x);
    assert((b.y.w) * (c.z.y) == b.y.w * c.z.y);
    assert((b.x.w * c.z.x) + (b.y.w * c.z.y) == g96);
    assert((b.z.w) * (c.z.z) == b.z.w * c.z.z);
    assert((g96) + (b.z.w * c.z.z) == g97);
    assert((b.w.w) * (c.z.w) == b.w.w * c.z.w);
    assert((g97) + (b.w.w * c.z.w) == g100);
    assert((a.w.z) * (g98) == g49);
    assert((a.w.z) * (g99) == g50);
    assert((a.w.z) * (g100) == g51);
    assert((a.w.z) * (g100) == g51);
    assert((g95) + (g51) == g63);
}

proof fn assoc4_part_z_w(a: M4, b: M4, c: M4)
    ensures
        m4_mul(m4_mul(a, b), c).z.w == m4_mul(a, m4_mul(b, c)).z.w,
{
    let g0: int = a.x.w * b.x.x + a.y.w * b.x.y;
    let g1: int = g0 + a.z.w * b.x.z;
    let g2: int = a.w.w * b.x.w + a.x.w * b.x.x;
    let g3: int = g2 + a.y.w * b.x.y;
    let g4: int = g3 + a.z.w * b.x.z;
    let g5: int = a.w.w * b.x.w * c.z.x + a.x.w * b.x.x * c.z.x;
    let g6: int = g5 + a.y.w * b.x.y * c.z.x;
    let g7: int = g6 + a.z.w * b.x.z * c.z.x;
    let g8: int = a.x.w * b.y.x + a.y.w * b.y.y;
    let g9: int = g8 + a.z.w * b.y.z;
    let g10: int = a.w.w * b.y.w + a.x.w * b.y.x;
    let g11: int = g10 + a.y.w * b.y.y;
    let g12: int = g11 + a.z.w * b.y.z;
    let g13: int = a.w.w * b.y.w * c.z.y + a.x.w * b.y.x * c.z.y;
    let g14: int = g13 + a.y.w * b.y.y * c.z.y;
    let g15: int = g14 + a.z.w * b.y.z * c.z.y;
    let g16: int = a.w.w * b.x.w * c.z.x + a.w.w * b.y.w * c.z.y;
    let g17: int = g16 + a.x.w * b.x.x * c.z.x;
    let g18: int = g17 + a.x.w * b.y.x * c.z.y;
    let g19: int = g18 + a.y.w * b.x.y * c.z.x;
    let g20: int = g19 + a.y.w * b.y.y * c.z.y;
    let g21: int = g20 + a.z.w * b.x.z * c.z.x;
    let g22: int = g21 + a.z.w * b.y.z * c.z.y;
    let g23: int = a.x.w * b.z.x + a.y.w * b.z.y;
    let g24: int = g23 + a.z.w * b.z.z;
    let g25: int = a.w.w * b.z.w + a.x.w * b.z.x;
    let g26: int = g25 + a.y.w * b.z.y;
    let g27: int = g26 + a.z.w * b.z.z;
    let g28: int = a.w.w * b.z.w * c.z.z + a.x.w * b.z.x * c.z.z;
    let g29: int = g28 + a.y.w * b.z.y * c.z.z;
    let g30: int = g29 + a.z.w * b.z.z * c.z.z;
    let g31: int = g16 + a.w.w * b.z.w * c.z.z;
    let g32: int = g31 + a.x.w * b.x.x * c.z.x;
    let g33: int = g32 + a.x.w * b.y.x * c.z.y;
    let g34: int = g33 + a.x.w * b.z.x * c.z.z;
    let g35: int = g34 + a.y.w * b.x.y * c.z.x;
    let g36: int = g35 + a.y.w * b.y.y * c.z.y;
    let g37: int = g36 + a.y.w * b.z.y * c.z.z;
    let g38: int = g37 + a.z.w * b.x.z * c.z.x;
    let g39: int = g38 + a.z.w * b.y.z * c.z.y;
    let g40: int = g39 + a.z.w * b.z.z * c.z.z;
    let g41: int = a.x.w * b.w.x + a.y.w * b.w.y;
    let g42: int = g41 + a.z.w * b.w.z;
    let g43: int = a.w.w * b.w.w + a.x.w * b.w.x;
    let g44: int = g43 + a.y.w * b.w.y;
    let g45: int = g44 + a.z.w * b.w.z;
    let g46: int = a.w.w * b.w.w * c.z.w + a.x.w * b.w.x * c.z.w;
    let g47: int = g46 + a.y.w * b.w.y * c.z.w;
    let g48: int = g47 + a.z.w * b.w.z * c.z.w;
    let g49: int = a.w.w * b.w.w * c.z.w + a.w.w * b.x.w * c.z.x;
    let g50: int = g49 + a.w.w * b.y.w * c.z.y;
    let g51: int = g50 + a.w.w * b.z.w * c.z.z;
    let g52: int = g51 + a.x.w * b.w.x * c.z.w;
    let g53: int = g52 + a.x.w * b.x.x * c.z.x;
    let g54: int = g53 + a.x.w * b.y.x * c.z.y;
    let g55: int = g54 + a.x.w * b.z.x * c.z.z;
    let g56: int = g55 + a.y.w * b.w.y * c.z.w;
    let g57: int = g56 + a.y.w * b.x.y * c.z.x;
    let g58: int = g57 + a.y.w * b.y.y * c.z.y;
    let g59: int = g58 + a.y.w * b.z.y * c.z.z;
    let g60: int = g59 + a.z.w * b.w.z * c.z.w;
    let g61: int = g60 + a.z.w * b.x.z * c.z.x;
    let g62: int = g61 + a.z.w * b.y.z * c.z.y;
    let g63: int = g62 + a.z.w * b.z.z * c.z.z;
    let g64: int = b.x.x * c.z.x + b.y.x * c.z.y;
    let g65: int = g64 + b.z.x * c.z.z;
    let g66: int = b.w.x * c.z.w + b.x.x * c.z.x;
    let g67: int = g66 + b.y.x * c.z.y;
    let g68: int = g67 + b.z.x * c.z.z;
    let g69: int = a.x.w * b.w.x * c.z.w + a.x.w * b.x.x * c.z.x;
    let g70: int = g69 + a.x.w * b.y.x * c.z.y;
    let g71: int = g70 + a.x.w * b.z.x * c.z.z;
    let g72: int = b.x.y * c.z.x + b.y.y * c.z.y;
    let g73: int = g72 + b.z.y * c.z.z;
    let g74: int = b.w.y * c.z.w + b.x.y * c.z.x;
    let g75: int = g74 + b.y.y * c.z.y;
    let g76: int = g75 + b.z.y * c.z.z;
    let g77: int = a.y.w * b.w.y * c.z.w + a.y.w * b.x.y * c.z.x;
    let g78: int = g77 + a.y.w * b.y.y * c.z.y;
    let g79: int = g78 + a.y.w * b.z.y * c.z.z;
    let g80: int = g71 + a.y.w * b.w.y * c.z.w;
    let g81: int = g80 + a.y.w * b.x.y * c.z.x;
    let g82: int = g81 + a.y.w * b.y.y * c.z.y;
    let g83: int = g82 + a.y.w * b.z.y * c.z.z;
    let g84: int = b.x.z * c.z.x + b.y.z * c.z.y;
    let g85: int = g84 + b.z.z * c.z.z;
    let g86: int = b.w.z * c.z.w + b.x.z * c.z.x;
    let g87: int = g86 + b.y.z * c.z.y;
    let g88: int = g87 + b.z.z * c.z.z;
    let g89: int = a.z.w * b.w.z * c.z.w + a.z.w * b.x.z * c.z.x;
    let g90: int = g89 + a.z.w * b.y.z * c.z.y;
    let g91: int = g90 + a.z.w * b.z.z * c.z.z;
    let g92: int = g83 + a.z.w * b.w.z * c.z.w;
    let g93: int = g92 + a.z.w * b.x.z * c.z.x;
    let g94: int = g93 + a.z.w * b.y.z * c.z.y;
    let g95: int = g94 + a.z.w * b.z.z * c.z.z;
    let g96: int = b.x.w * c.z.x + b.y.w * c.z.y;
    let g97: int = g96 + b.z.w * c.z.z;
    let g98: int = b.w.w * c.z.w + b.x.w * c.z.x;
    let g99: int = g98 + b.y.w * c.z.y;
    let g100: int = g99 + b.z.w * c.z.z;
    assert((g3 + a.z.w * b.x.z) * (c.z.x) == g3 * (c.z.x) + (a.z.w * b.x.z) * (c.z.x)
        && (g2 + a.y.w * b.x.y) * (c.z.x) == g2 * (c.z.x) + (a.y.w * b.x.y) * (c.z.x)
        && (a.w.w * b.x.w + a.x.w * b.x.x) * (c.z.x) == a.w.w * b.x.w * (c.z.x) + (a.x.w * b.x.x) * (c.z.x)
    ) by (nonlinear_arith);
    assert((g11 + a.z.w * b.y.z) * (c.z.y) == g11 * (c.z.y) + (a.z.w * b.y.z) * (c.z.y)
        && (g10 + a.y.w * b.y.y) * (c.z.y) == g10 * (c.z.y) + (a.y.w * b.y.y) * (c.z.y)
        && (a.w.w * b.y.w + a.x.w * b.y.x) * (c.z.y) == a.w.w * b.y.w * (c.z.y) + (a.x.w * b.y.x) * (c.z.y)
    ) by (nonlinear_arith);
    assert((g26 + a.z.w * b.z.z) * (c.z.z) == g26 * (c.z.z) + (a.z.w * b.z.z) * (c.z.z)
        && (g25 + a.y.w * b.z.y) * (c.z.z) == g25 * (c.z.z) + (a.y.w * b.z.y) * (c.z.z)
        && (a.w.w * b.z.w + a.x.w * b.z.x) * (c.z.z) == a.w.w * b.z.w * (c.z.z) + (a.x.w * b.z.x) * (c.z.z)
    ) by (nonlinear_arith);
    assert((g44 + a.z.w * b.w.z) * (c.z.w) == g44 * (c.z.w) + (a.z.w * b.w.z) * (c.z.w)
        && (g43 + a.y.w * b.w.y) * (c.z.w) == g43 * (c.z.w) + (a.y.w * b.w.y) * (c.z.w)
        && (a.w.w * b.w.w + a.x.w * b.w.x) * (c.z.w) == a.w.w * b.w.w * (c.z.w) + (a.x.w * b.w.x) * (c.z.w)
    ) by (nonlinear_arith);
    assert((a.x.w) * (g67 + b.z.x * c.z.z) == (a.x.w) * (g67) + (a.x.w) * (b.z.x * c.z.z)
        && (a.x.w) * (g66 + b.y.x * c.z.y) == (a.x.w) * (g66) + (a.x.w) * (b.y.x * c.z.y)
        && (a.x.w) * (b.w.x * c.z.w + b.x.x * c.z.x) == (a.x.w) * (b.w.x * c.z.w) + (a.x.w) * (b.x.x * c.z.x)
    ) by (nonlinear_arith);
    assert(a.x.w * (b.w.x * c.z.w) == a.x.w * b.w.x * c.z.w
        && a.x.w * (b.x.x * c.z.x) == a.x.w * b.x.x * c.z.x
        && a.x.w * (b.y.x * c.z.y) == a.x.w * b.y.x * c.z.y
        && a.x.w * (b.z.x * c.z.z) == a.x.w * b.z.x * c.z.z
    ) by (nonlinear_arith);
    assert((a.y.w) * (g75 + b.z.y * c.z.z) == (a.y.w) * (g75) + (a.y.w) * (b.z.y * c.z.z)
        && (a.y.w) * (g74 + b.y.y * c.z.y) == (a.y.w) * (g74) + (a.y.w) * (b.y.y * c.z.y)
        && (a.y.w) * (b.w.y * c.z.w + b.x.y * c.z.x) == (a.y.w) * (b.w.y * c.z.w) + (a.y.w) * (b.x.y * c.z.x)
    ) by (nonlinear_arith);
    assert(a.y.w * (b.w.y * c.z.w) == a.y.w * b.w.y * c.z.w
        && a.y.w * (b.x.y * c.z.x) == a.y.w * b.x.y * c.z.x
        && a.y.w * (b.y.y * c.z.y) == a.y.w * b.y.y * c.z.y
        && a.y.w * (b.z.y * c.z.z) == a.y.w * b.z.y * c.z.z
    ) by (nonlinear_arith);
    assert((a.z.w) * (g87 + b.z.z * c.z.z) == (a.z.w) * (g87) + (a.z.w) * (b.z.z * c.z.z)
        && (a.z.w) * (g86 + b.y.z * c.z.y) == (a.z.w) * (g86) + (a.z.w) * (b.y.z * c.z.y)
        && (a.z.w) * (b.w.z * c.z.w + b.x.z * c.z.x) == (a.z.w) * (b.w.z * c.z.w) + (a.z.w) * (b.x.z * c.z.x)
    ) by (nonlinear_arith);
    assert(a.z.w * (b.w.z * c.z.w) == a.z.w * b.w.z * c.z.w
        && a.z.w * (b.x.z * c.z.x) == a.z.w * b.x.z * c.z.x
        && a.z.w * (b.y.z * c.z.y) == a.z.w * b.y.z * c.z.y
        && a.z.w * (b.z.z * c.z.z) == a.z.w * b.z.z * c.z.z
    ) by (nonlinear_arith);
    assert((a.w.w) * (g99 + b.z.w * c.z.z) == (a.w.w) * (g99) + (a.w.w) * (b.z.w * c.z.z)
        && (a.w.w) * (g98 + b.y.w * c.z.y) == (a.w.w) * (g98) + (a.w.w) * (b.y.w * c.z.y)
        && (a.w.w) * (b.w.w * c.z.w + b.x.w * c.z.x) == (a.w.w) * (b.w.w * c.z.w) + (a.w.w) * (b.x.w * c.z.x)
    ) by (nonlinear_arith);
    assert(a.w.w * (b.w.w * c.z.w) == a.w.w * b.w.w * c.z.w
        && a.w.w * (b.x.w * c.z.x) == a.w.w * b.x.w * c.z.x
        && a.w.w * (b.y.w * c.z.y) == a.w.w * b.y.w * c.z.y
        && a.w.w * (b.z.w * c.z.z) == a.w.w * b.z.w * c.z.z
    ) by (nonlinear_arith);
    assert((a.x.w) * (b.x.x) == a.x.w * b.x.x);
    assert((a.y.w) * (b.x.y) == a.y.w * b.x.y);
    assert((a.x.w * b.x.x) + (a.y.w * b.x.y) == g0);
    assert((a.z.w) * (b.x.z) == a.z.w * b.x.z);
    assert((g0) + (a.z.w * b.x.z) == g1);
    assert((a.w.w) * (b.x.w) == a.w.w * b.x.w);
    assert((g1) + (a.w.w * b.x.w) == g4);
    assert((g2) * (c.z.x) == g5);
    assert((g3) * (c.z.x) == g6);
    assert((g4) * (c.z.x) == g7);
    assert((g4) * (c.z.x) == g7);
    assert((a.x.w) * (b.y.x) == a.x.w * b.y.x);
    assert((a.y.w) * (b.y.y) == a.y.w * b.y.y);
    assert((a.x.w * b.y.x) + (a.y.w * b.y.y) == g8);
    assert((a.z.w) * (b.y.z) == a.z.w * b.y.z);
    assert((g8) + (a.z.w * b.y.z) == g9);
    assert((a.w.w) * (b.y.w) == a.w.w * b.y.w);
    assert((g9) + (a.w.w * b.y.w) == g12);
    assert((g10) * (c.z.y) == g13);
    assert((g11) * (c.z.y) == g14);
    assert((g12) * (c.z.y) == g15);
    assert((g12) * (c.z.y) == g15);
    assert((g7) + (g15) == g22);
    assert((a.x.w) * (b.z.x) == a.x.w * b.z.x);
    assert((a.y.w) * (b.z.y) == a.y.w * b.z.y);
    assert((a.x.w * b.z.x) + (a.y.w * b.z.y) == g23);
    assert((a.z.w) * (b.z.z) == a.z.w * b.z.z);
    assert((g23) + (a.z.w * b.z.z) == g24);
    assert((a.w.w) * (b.z.w) == a.w.w * b.z.w);
    assert((g24) + (a.w.w * b.z.w) == g27);
    assert((g25) * (c.z.z) == g28);
    assert((g26) * (c.z.z) == g29);
    assert((g27) * (c.z.z) == g30);
    assert((g27) * (c.z.z) == g30);
    assert((g22) + (g30) == g40);
    assert((a.x.w) * (b.w.x) == a.x.w * b.w.x);
    assert((a.y.w) * (b.w.y) == a.y.w * b.w.y);
    assert((a.x.w * b.w.x) + (a.y.w * b.w.y) == g41);
    assert((a.z.w) * (b.w.z) == a.z.w * b.w.z);
    assert((g41) + (a.z.w * b.w.z) == g42);
    assert((a.w.w) * (b.w.w) == a.w.w * b.w.w);
    assert((g42) + (a.w.w * b.w.w) == g45);
    assert((g43) * (c.z.w) == g46);
    assert((g44) * (c.z.w) == g47);
    assert((g45) * (c.z.w) == g48);
    assert((g45) * (c.z.w) == g48);
    assert((g40) + (g48) == g63);
    assert((b.x.x) * (c.z.x) == b.x.x * c.z.x);
    assert((b.y.x) * (c.z.y) == b.y.x * c.z.y);
    assert((b.x.x * c.z.x) + (b.y.x * c.z.y) == g64);
    assert((b.z.x) * (c.z.z) == b.z.x * c.z.z);
    assert((g64) + (b.z.x * c.z.z) == g65);
    assert((b.w.x) * (c.z.w) == b.w.x * c.z.w);
    assert((g65) + (b.w.x * c.z.w) == g68);
    assert((a.x.w) * (g66) == g69);
    assert((a.x.w) * (g67) == g70);
    assert((a.x.w) * (g68) == g71);
    assert((a.x.w) * (g68) == g71);
    assert((b.x.y) * (c.z.x) == b.x.y * c.z.x);
    assert((b.y.y) * (c.z.y) == b.y.y * c.z.y);
    assert((b.x.y * c.z.x) + (b.y.y * c.z.y) == g72);
    assert((b.z.y) * (c.z.z) == b.z.y * c.z.z);
    assert((g72) + (b.z.y * c.z.z) == g73);
    assert((b.w.y) * (c.z.w) == b.w.y * c.z.w);
    assert((g73) + (b.w.y * c.z.w) == g76);
    assert((a.y.w) * (g74) == g77);
    assert((a.y.w) * (g75) == g78);
    assert((a.y.w) * (g76) == g79);
    assert((a.y.w) * (g76) == g79);
    assert((g71) + (g79) == g83);
    assert((b.x.z) * (c.z.x) == b.x.z * c.z.x);
    assert((b.y.z) * (c.z.y) == b.y.z * c.z.y);
    assert((b.x.z * c.z.x) + (b.y.z * c.z.y) == g84);
    assert((b.z.z) * (c.z.z) == b.z.z * c.z.z);
    assert((g84) + (b.z.z * c.z.z) == g85);
    assert((b.w.z) * (c.z.w) == b.w.z * c.z.w);
    assert((g85) + (b.w.z * c.z.w) == g88);
    assert((a.z.w) * (g86) == g89);
    assert((a.z.w) * (g87) == g90);
    assert((a.z.w) * (g88) == g91);
    assert((a.z.w) * (g88) == g91);
    assert((g83) + (g91) == g95);
    assert((b.x.w) * (c.z.x) == b.x.w * c.z.x);
    assert((b.y.w) * (c.z.y) == b.y.w * c.z.y);
    assert((b.x.w * c.z.x) + (b.y.w * c.z.y) == g96);
    assert((b.z.w) * (c.z.z) == b.z.w * c.z.z);
    assert((g96) + (b.z.w * c.z.z) == g97);
    assert((b.w.w) * (c.z.w) == b.w.w * c.z.w);
    assert((g97) + (b.w.w * c.z.w) == g100);
    assert((a.w.w) * (g98) == g49);
    assert((a.w.w) * (g99) == g50);
    assert((a.w.w) * (g100) == g51);
    assert((a.w.w) * (g100) == g51);
    assert((g95) + (g51) == g63);
}

proof fn assoc4_part_z_d(a: M4, b: M4, c: M4)
    ensures
        m4_mul(m4_mul(a, b), c).z.d == m4_mul(a, m4_mul(b, c)).z.d,
{
    assert(a.x.d * (b.x.d * c.z.d) == a.x.d * b.x.d * c.z.d) by (nonlinear_arith);
    assert((a.x.d) * (b.x.d) == a.x.d * b.x.d);
    assert((a.x.d * b.x.d) * (c.z.d) == a.x.d * b.x.d * c.z.d);
    assert((b.x.d) * (c.z.d) == b.x.d * c.z.d);
    assert((a.x.d) * (b.x.d * c.z.d) == a.x.d * b.x.d * c.z.d);
}

proof fn assoc4_part_w_x(a: M4, b: M4, c: M4)
    ensures
        m4_mul(m4_mul(a, b), c).w.x == m4_mul(a, m4_mul(b, c)).w.x,
{
    let g0: int = a.x.x * b.x.x + a.y.x * b.x.y;
    let g1: int = g0 + a.z.x * b.x.z;
    let g2: int = a.w.x * b.x.w + a.x.x * b.x.x;
    let g3: int = g2 + a.y.x * b.x.y;
    let g4: int = g3 + a.z.x * b.x.z;
    let g5: int = a.w.x * b.x.w * c.w.x + a.x.x * b.x.x * c.w.x;
    let g6: int = g5 + a.y.x * b.x.y * c.w.x;
    let g7: int = g6 + a.z.x * b.x.z * c.w.x;
    let g8: int = a.x.x * b.y.x + a.y.x * b.y.y;
    let g9: int = g8 + a.z.x * b.y.z;
    let g10: int = a.w.x * b.y.w + a.x.x * b.y.x;
    let g11: int = g10 + a.y.x * b.y.y;
    let g12: int = g11 + a.z.x * b.y.z;
    let g13: int = a.w.x * b.y.w * c.w.y + a.x.x * b.y.x * c.w.y;
    let g14: int = g13 + a.y.x * b.y.y * c.w.y;
    let g15: int = g14 + a.z.x * b.y.z * c.w.y;
    let g16: int = a.w.x * b.x.w * c.w.x + a.w.x * b.y.w * c.w.y;
    let g17: int = g16 + a.x.x * b.x.x * c.w.x;
    let g18: int = g17 + a.x.x * b.y.x * c.w.y;
    let g19: int = g18 + a.y.x * b.x.y * c.w.x;
    let g20: int = g19 + a.y.x * b.y.y * c.w.y;
    let g21: int = g20 + a.z.x * b.x.z * c.w.x;
    let g22: int = g21 + a.z.x * b.y.z * c.w.y;
    let g23: int = a.x.x * b.z.x + a.y.x * b.z.y;
    let g24: int = g23 + a.z.x * b.z.z;
    let g25: int = a.w.x * b.z.w + a.x.x * b.z.x;
    let g26: int = g25 + a.y.x * b.z.y;
    let g27: int = g26 + a.z.x * b.z.z;
    let g28: int = a.w.x * b.z.w * c.w.z + a.x.x * b.z.x * c.w.z;
    let g29: int = g28 + a.y.x * b.z.y * c.w.z;
    let g30: int = g29 + a.z.x * b.z.z * c.w.z;
    let g31: int = g16 + a.w.x * b.z.w * c.w.z;
    let g32: int = g31 + a.x.x * b.x.x * c.w.x;
    let g33: int = g32 + a.x.x * b.y.x * c.w.y;
    let g34: int = g33 + a.x.x * b.z.x * c.w.z;
    let g35: int = g34 + a.y.x * b.x.y * c.w.x;
    let g36: int = g35 + a.y.x * b.y.y * c.w.y;
    let g37: int = g36 + a.y.x * b.z.y * c.w.z;
    let g38: int = g37 + a.z.x * b.x.z * c.w.x;
    let g39: int = g38 + a.z.x * b.y.z * c.w.y;
    let g40: int = g39 + a.z.x * b.z.z * c.w.z;
    let g41: int = a.x.x * b.w.x + a.y.x * b.w.y;
    let g42: int = g41 + a.z.x * b.w.z;
    let g43: int = a.w.x * b.w.w + a.x.x * b.w.x;
    let g44: int = g43 + a.y.x * b.w.y;
    let g45: int = g44 + a.z.x * b.w.z;
    let g46: int = a.w.x * b.w.w * c.w.w + a.x.x * b.w.x * c.w.w;
    let g47: int = g46 + a.y.x * b.w.y * c.w.w;
    let g48: int = g47 + a.z.x * b.w.z * c.w.w;
    let g49: int = a.w.x * b.w.w * c.w.w + a.w.x * b.x.w * c.w.x;
    let g50: int = g49 + a.w.x * b.y.w * c.w.y;
    let g51: int = g50 + a.w.x * b.z.w * c.w.z;
    let g52: int = g51 + a.x.x * b.w.x * c.w.w;
    let g53: int = g52 + a.x.x * b.x.x * c.w.x;
    let g54: int = g53 + a.x.x * b.y.x * c.w.y;
    let g55: int = g54 + a.x.x * b.z.x * c.w.z;
    let g56: int = g55 + a.y.x * b.w.y * c.w.w;
    let g57: int = g56 + a.y.x * b.x.y * c.w.x;
    let g58: int = g57 + a.y.x * b.y.y * c.w.y;
    let g59: int = g58 + a.y.x * b.z.y * c.w.z;
    let g60: int = g59 + a.z.x * b.w.z * c.w.w;
    let g61: int = g60 + a.z.x * b.x.z * c.w.x;
    let g62: int = g61 + a.z.x * b.y.z * c.w.y;
    let g63: int = g62 + a.z.x * b.z.z * c.w.z;
    let g64: int = b.x.x * c.w.x + b.y.x * c.w.y;
    let g65: int = g64 + b.z.x * c.w.z;
    let g66: int = b.w.x * c.w.w + b.x.x * c.w.x;
    let g67: int = g66 + b.y.x * c.w.y;
    let g68: int = g67 + b.z.x * c.w.z;
    let g69: int = a.x.x * b.w.x * c.w.w + a.x.x * b.x.x * c.w.x;
    let g70: int = g69 + a.x.x * b.y.x * c.w.y;
    let g71: int = g70 + a.x.x * b.z.x * c.w.z;
    let g72: int = b.x.y * c.w.x + b.y.y * c.w.y;
    let g73: int = g72 + b.z.y * c.w.z;
    let g74: int = b.w.y * c.w.w + b.x.y * c.w.x;
    let g75: int = g74 + b.y.y * c.w.y;
    let g76: int = g75 + b.z.y * c.w.z;
    let g77: int = a.y.x * b.w.y * c.w.w + a.y.x * b.x.y * c.w.x;
    let g78: int = g77 + a.y.x * b.y.y * c.w.y;
    let g79: int = g78 + a.y.x * b.z.y * c.w.z;
    let g80: int = g71 + a.y.x * b.w.y * c.w.w;
    let g81: int = g80 + a.y.x * b.x.y * c.w.x;
    let g82: int = g81 + a.y.x * b.y.y * c.w.y;
    let g83: int = g82 + a.y.x * b.z.y * c.w.z;
    let g84: int = b.x.z * c.w.x + b.y.z * c.w.y;
    let g85: int = g84 + b.z.z * c.w.z;
    let g86: int = b.w.z * c.w.w + b.x.z * c.w.x;
    let g87: int = g86 + b.y.z * c.w.y;
    let g88: int = g87 + b.z.z * c.w.z;
    let g89: int = a.z.x * b.w.z * c.w.w + a.z.x * b.x.z * c.w.x;
    let g90: int = g89 + a.z.x * b.y.z * c.w.y;
    let g91: int = g90 + a.z.x * b.z.z * c.w.z;
    let g92: int = g83 + a.z.x * b.w.z * c.w.w;
    let g93: int = g92 + a.z.x * b.x.z * c.w.x;
    let g94: int = g93 + a.z.x * b.y.z * c.w.y;
    let g95: int = g94 + a.z.x * b.z.z * c.w.z;
    let g96: int = b.x.w * c.w.x + b.y.w * c.w.y;
    let g97: int = g96 + b.z.w * c.w.z;
    let g98: int = b.w.w * c.w.w + b.x.w * c.w.x;
    let g99: int = g98 + b.y.w * c.w.y;
    let g100: int = g99 + b.z.w * c.w.z;
    assert((g3 + a.z.x * b.x.z) * (c.w.x) == g3 * (c.w.x) + (a.z.x * b.x.z) * (c.w.x)
        && (g2 + a.y.x * b.x.y) * (c.w.x) == g2 * (c.w.x) + (a.y.x * b.x.y) * (c.w.x)
        && (a.w.x * b.x.w + a.x.x * b.x.x) * (c.w.x) == a.w.x * b.x.w * (c.w.x) + (a.x.x * b.x.x) * (c.w.x)
    ) by (nonlinear_arith);
    assert((g11 + a.z.x * b.y.z) * (c.w.y) == g11 * (c.w.y) + (a.z.x * b.y.z) * (c.w.y)
        && (g10 + a.y.x * b.y.y) * (c.w.y) == g10 * (c.w.y) + (a.y.x * b.y.y) * (c.w.y)
        && (a.w.x * b.y.w + a.x.x * b.y.x) * (c.w.y) == a.w.x * b.y.w * (c.w.y) + (a.x.x * b.y.x) * (c.w.y)
    ) by (nonlinear_arith);
    assert((g26 + a.z.x * b.z.z) * (c.w.z) == g26 * (c.w.z) + (a.z.x * b.z.z) * (c.w.z)
        && (g25 + a.y.x * b.z.y) * (c.w.z) == g25 * (c.w.z) + (a.y.x * b.z.y) * (c.w.z)
        && (a.w.x * b.z.w + a.x.x * b.z.x) * (c.w.z) == a.w.x * b.z.w * (c.w.z) + (a.x.x * b.z.x) * (c.w.z)
    ) by (nonlinear_arith);
    assert((g44 + a.z.x * b.w.z) * (c.w.w) == g44 * (c.w.w) + (a.z.x * b.w.z) * (c.w.w)
        && (g43 + a.y.x * b.w.y) * (c.w.w) == g43 * (c.w.w) + (a.y.x * b.w.y) * (c.w.w)
        && (a.w.x * b.w.w + a.x.x * b.w.x) * (c.w.w) == a.w.x * b.w.w * (c.w.w) + (a.x.x * b.w.x) * (c.w.w)
    ) by (nonlinear_arith);
    assert((a.x.x) * (g67 + b.z.x * c.w.z) == (a.x.x) * (g67) + (a.x.x) * (b.z.x * c.w.z)
        && (a.x.x) * (g66 + b.y.x * c.w.y) == (a.x.x) * (g66) + (a.x.x) * (b.y.x * c.w.y)
        && (a.x.x) * (b.w.x * c.w.w + b.x.x * c.w.x) == (a.x.x) * (b.w.x * c.w.w) + (a.x.x) * (b.x.x * c.w.x)
    ) by (nonlinear_arith);
    assert(a.x.x * (b.w.x * c.w.w) == a.x.x * b.w.x * c.w.w
        && a.x.x * (b.x.x * c.w.x) == a.x.x * b.x.x * c.w.x
        && a.x.x * (b.y.x * c.w.y) == a.x.x * b.y.x * c.w.y
        && a.x.x * (b.z.x * c.w.z) == a.x.x * b.z.x * c.w.z
    ) by (nonlinear_arith);
    assert((a.y.x) * (g75 + b.z.y * c.w.z) == (a.y.x) * (g75) + (a.y.x) * (b.z.y * c.w.z)
        && (a.y.x) * (g74 + b.y.y * c.w.y) == (a.y.x) * (g74) + (a.y.x) * (b.y.y * c.w.y)
        && (a.y.x) * (b.w.y * c.w.w + b.x.y * c.w.x) == (a.y.x) * (b.w.y * c.w.w) + (a.y.x) * (b.x.y * c.w.x)
    ) by (nonlinear_arith);
    assert(a.y.x * (b.w.y * c.w.w) == a.y.x * b.w.y * c.w.w
        && a.y.x * (b.x.y * c.w.x) == a.y.x * b.x.y * c.w.x
        && a.y.x * (b.y.y * c.w.y) == a.y.x * b.y.y * c.w.y
        && a.y.x * (b.z.y * c.w.z) == a.y.x * b.z.y * c.w.z
    ) by (nonlinear_arith);
    assert((a.z.x) * (g87 + b.z.z * c.w.z) == (a.z.x) * (g87) + (a.z.x) * (b.z.z * c.w.z)
        && (a.z.x) * (g86 + b.y.z * c.w.y) == (a.z.x) * (g86) + (a.z.x) * (b.y.z * c.w.y)
        && (a.z.x) * (b.w.z * c.w.w + b.x.z * c.w.x) == (a.z.x) * (b.w.z * c.w.w) + (a.z.x) * (b.x.z * c.w.x)
    ) by (nonlinear_arith);
    assert(a.z.x * (b.w.z * c.w.w) == a.z.x * b.w.z * c.w.w
        && a.z.x * (b.x.z * c.w.x) == a.z.x * b.x.z * c.w.x
        && a.z.x * (b.y.z * c.w.y) == a.z.x * b.y.z * c.w.y
        && a.z.x * (b.z.z * c.w.z) == a.z.x * b.z.z * c.w.z
    ) by (nonlinear_arith);
    assert((a.w.x) * (g99 + b.z.w * c.w.z) == (a.w.x) * (g99) + (a.w.x) * (b.z.w * c.w.z)
        && (a.w.x) * (g98 + b.y.w * c.w.y) == (a.w.x) * (g98) + (a.w.x) * (b.y.w * c.w.y)
        && (a.w.x) * (b.w.w * c.w.w + b.x.w * c.w.x) == (a.w.x) * (b.w.w * c.w.w) + (a.w.x) * (b.x.w * c.w.x)
    ) by (nonlinear_arith);
    assert(a.w.x * (b.w.w * c.w.w) == a.w.x * b.w.w * c.w.w
        && a.w.x * (b.x.w * c.w.x) == a.w.x * b.x.w * c.w.x
        && a.w.x * (b.y.w * c.w.y) == a.w.x * b.y.w * c.w.y
        && a.w.x * (b.z.w * c.w.z) == a.w.x * b.z.w * c.w.z
    ) by (nonlinear_arith);
    assert((a.x.x) * (b.x.x) == a.x.x * b.x.x);
    assert((a.y.x) * (b.x.y) == a.y.x * b.x.y);
    assert((a.x.x * b.x.x) + (a.y.x * b.x.y) == g0);
    assert((a.z.x) * (b.x.z) == a.z.x * b.x.z);
    assert((g0) + (a.z.x * b.x.z) == g1);
    assert((a.w.x) * (b.x.w) == a.w.x * b.x.w);
    assert((g1) + (a.w.x * b.x.w) == g4);
    assert((g2) * (c.w.x) == g5);
    assert((g3) * (c.w.x) == g6);
    assert((g4) * (c.w.x) == g7);
    assert((g4) * (c.w.x) == g7);
    assert((a.x.x) * (b.y.x) == a.x.x * b.y.x);
    assert((a.y.x) * (b.y.y) == a.y.x * b.y.y);
    assert((a.x.x * b.y.x) + (a.y.x * b.y.y) == g8);
    assert((a.z.x) * (b.y.z) == a.z.x * b.y.z);
    assert((g8) + (a.z.x * b.y.z) == g9);
    assert((a.w.x) * (b.y.w) == a.w.x * b.y.w);
    assert((g9) + (a.w.x * b.y.w) == g12);
    assert((g10) * (c.w.y) == g13);
    assert((g11) * (c.w.y) == g14);
    assert((g12) * (c.w.y) == g15);
    assert((g12) * (c.w.y) == g15);
    assert((g7) + (g15) == g22);
    assert((a.x.x) * (b.z.x) == a.x.x * b.z.x);
    assert((a.y.x) * (b.z.y) == a.y.x * b.z.y);
    assert((a.x.x * b.z.x) + (a.y.x * b.z.y) == g23);
    assert((a.z.x) * (b.z.z) == a.z.x * b.z.z);
    assert((g23) + (a.z.x * b.z.z) == g24);
    assert((a.w.x) * (b.z.w) == a.w.x * b.z.w);
    assert((g24) + (a.w.x * b.z.w) == g27);
    assert((g25) * (c.w.z) == g28);
    assert((g26) * (c.w.z) == g29);
    assert((g27) * (c.w.z) == g30);
    assert((g27) * (c.w.z) == g30);
    assert((g22) + (g30) == g40);
    assert((a.x.x) * (b.w.x) == a.x.x * b.w.x);
    assert((a.y.x) * (b.w.y) == a.y.x * b.w.y);
    assert((a.x.x * b.w.x) + (a.y.x * b.w.y) == g41);
    assert((a.z.x) * (b.w.z) == a.z.x * b.w.z);
    assert((g41) + (a.z.x * b.w.z) == g42);
    assert((a.w.x) * (b.w.w) == a.w.x * b.w.w);
    assert((g42) + (a.w.x * b.w.w) == g45);
    assert((g43) * (c.w.w) == g46);
    assert((g44) * (c.w.w) == g47);
    assert((g45) * (c.w.w) == g48);
    assert((g45) * (c.w.w) == g48);
    assert((g40) + (g48) == g63);
    assert((b.x.x) * (c.w.x) == b.x.x * c.w.x);
    assert((b.y.x) * (c.w.y) == b.y.x * c.w.y);
    assert((b.x.x * c.w.x) + (b.y.x * c.w.y) == g64);
    assert((b.z.x) * (c.w.z) == b.z.x * c.w.z);
    assert((g64) + (b.z.x * c.w.z) == g65);
    assert((b.w.x) * (c.w.w) == b.w.x * c.w.w);
    assert((g65) + (b.w.x * c.w.w) == g68);
    assert((a.x.x) * (g66) == g69);
    assert((a.x.x) * (g67) == g70);
    assert((a.x.x) * (g68) == g71);
    assert((a.x.x) * (g68) == g71);
    assert((b.x.y) * (c.w.x) == b.x.y * c.w.x);
    assert((b.y.y) * (c.w.y) == b.y.y * c.w.y);
    assert((b.x.y * c.w.x) + (b.y.y * c.w.y) == g72);
    assert((b.z.y) * (c.w.z) == b.z.y * c.w.z);
    assert((g72) + (b.z.y * c.w.z) == g73);
    assert((b.w.y) * (c.w.w) == b.w.y * c.w.w);
    assert((g73) + (b.w.y * c.w.w) == g76);
    assert((a.y.x) * (g74) == g77);
    assert((a.y.x) * (g75) == g78);
    assert((a.y.x) * (g76) == g79);
    assert((a.y.x) * (g76) == g79);
    assert((g71) + (g79) == g83);
    assert((b.x.z) * (c.w.x) == b.x.z * c.w.x);
    assert((b.y.z) * (c.w.y) == b.y.z * c.w.y);
    assert((b.x.z * c.w.x) + (b.y.z * c.w.y) == g84);
    assert((b.z.z) * (c.w.z) == b.z.z * c.w.z);
    assert((g84) + (b.z.z * c.w.z) == g85);
    assert((b.w.z) * (c.w.w) == b.w.z * c.w.w);
    assert((g85) + (b.w.z * c.w.w) == g88);
    assert((a.z.x) * (g86) == g89);
    assert((a.z.x) * (g87) == g90);
    assert((a.z.x) * (g88) == g91);
    assert((a.z.x) * (g88) == g91);
    assert((g83) + (g91) == g95);
    assert((b.x.w) * (c.w.x) == b.x.w * c.w.x);
    assert((b.y.w) * (c.w.y) == b.y.w * c.w.y);
    assert((b.x.w * c.w.x) + (b.y.w * c.w.y) == g96);
    assert((b.z.w) * (c.w.z) == b.z.w * c.w.z);
    assert((g96) + (b.z.w * c.w.z) == g97);
    assert((b.w.w) * (c.w.w) == b.w.w * c.w.w);
    assert((g97) + (b.w.w * c.w.w) == g100);
    assert((a.w.x) * (g98) == g49);
    assert((a.w.x) * (g99) == g50);
    assert((a.w.x) * (g100) == g51);
    assert((a.w.x) * (g100) == g51);
    assert((g95) + (g51) == g63);
}

proof fn assoc4_part_w_y(a: M4, b: M4, c: M4)
    ensures
        m4_mul(m4_mul(a, b), c).w.y == m4_mul(a, m4_mul(b, c)).w.y,
{
    let g0: int = a.x.y * b.x.x + a.y.y * b.x.y;
    let g1: int = g0 + a.z.y * b.x.z;
    let g2: int = a.w.y * b.x.w + a.x.y * b.x.x;
    let g3: int = g2 + a.y.y * b.x.y;
    let g4: int = g3 + a.z.y * b.x.z;
    let g5: int = a.w.y * b.x.w * c.w.x + a.x.y * b.x.x * c.w.x;
    let g6: int = g5 + a.y.y * b.x.y * c.w.x;
    let g7: int = g6 + a.z.y * b.x.z * c.w.x;
    let g8: int = a.x.y * b.y.x + a.y.y * b.y.y;
    let g9: int = g8 + a.z.y * b.y.z;
    let g10: int = a.w.y * b.y.w + a.x.y * b.y.x;
    let g11: int = g10 + a.y.y * b.y.y;
    let g12: int = g11 + a.z.y * b.y.z;
    let g13: int = a.w.y * b.y.w * c.w.y + a.x.y * b.y.x * c.w.y;
    let g14: int = g13 + a.y.y * b.y.y * c.w.y;
    let g15: int = g14 + a.z.y * b.y.z * c.w.y;
    let g16: int = a.w.y * b.x.w * c.w.x + a.w.y * b.y.w * c.w.y;
    let g17: int = g16 + a.x.y * b.x.x * c.w.x;
    let g18: int = g17 + a.x.y * b.y.x * c.w.y;
    let g19: int = g18 + a.y.y * b.x.y * c.w.x;
    let g20: int = g19 + a.y.y * b.y.y * c.w.y;
    let g21: int = g20 + a.z.y * b.x.z * c.w.x;
    let g22: int = g21 + a.z.y * b.y.z * c.w.y;
    let g23: int = a.x.y * b.z.x + a.y.y * b.z.y;
    let g24: int = g23 + a.z.y * b.z.z;
    let g25: int = a.w.y * b.z.w + a.x.y * b.z.x;
    let g26: int = g25 + a.y.y * b.z.y;
    let g27: int = g26 + a.z.y * b.z.z;
    let g28: int = a.w.y * b.z.w * c.w.z + a.x.y * b.z.x * c.w.z;
    let g29: int = g28 + a.y.y * b.z.y * c.w.z;
    let g30: int = g29 + a.z.y * b.z.z * c.w.z;
    let g31: int = g16 + a.w.y * b.z.w * c.w.z;
    let g32: int = g31 + a.x.y * b.x.x * c.w.x;
    let g33: int = g32 + a.x.y * b.y.x * c.w.y;
    let g34: int = g33 + a.x.y * b.z.x * c.w.z;
    let g35: int = g34 + a.y.y * b.x.y * c.w.x;
    let g36: int = g35 + a.y.y * b.y.y * c.w.y;
    let g37: int = g36 + a.y.y * b.z.y * c.w.z;
    let g38: int = g37 + a.z.y * b.x.z * c.w.x;
    let g39: int = g38 + a.z.y * b.y.z * c.w.y;
    let g40: int = g39 + a.z.y * b.z.z * c.w.z;
    let g41: int = a.x.y * b.w.x + a.y.y * b.w.y;
    let g42: int = g41 + a.z.y * b.w.z;
    let g43: int = a.w.y * b.w.w + a.x.y * b.w.x;
    let g44: int = g43 + a.y.y * b.w.y;
    let g45: int = g44 + a.z.y * b.w.z;
    let g46: int = a.w.y * b.w.w * c.w.w + a.x.y * b.w.x * c.w.w;
    let g47: int = g46 + a.y.y * b.w.y * c.w.w;
    let g48: int = g47 + a.z.y * b.w.z * c.w.w;
    let g49: int = a.w.y * b.w.w * c.w.w + a.w.y * b.x.w * c.w.x;
    let g50: int = g49 + a.w.y * b.y.w * c.w.y;
    let g51: int = g50 + a.w.y * b.z.w * c.w.z;
    let g52: int = g51 + a.x.y * b.w.x * c.w.w;
    let g53: int = g52 + a.x.y * b.x.x * c.w.x;
    let g54: int = g53 + a.x.y * b.y.x * c.w.y;
    let g55: int = g54 + a.x.y * b.z.x * c.w.z;
    let g56: int = g55 + a.y.y * b.w.y * c.w.w;
    let g57: int = g56 + a.y.y * b.x.y * c.w.x;
    let g58: int = g57 + a.y.y * b.y.y * c.w.y;
    let g59: int = g58 + a.y.y * b.z.y * c.w.z;
    let g60: int = g59 + a.z.y * b.w.z * c.w.w;
    let g61: int = g60 + a.z.y * b.x.z * c.w.x;
    let g62: int = g61 + a.z.y * b.y.z * c.w.y;
    let g63: int = g62 + a.z.y * b.z.z * c.w.z;
    let g64: int = b.x.x * c.w.x + b.y.x * c.w.y;
    let g65: int = g64 + b.z.x * c.w.z;
    let g66: int = b.w.x * c.w.w + b.x.x * c.w.x;
    let g67: int = g66 + b.y.x * c.w.y;
    let g68: int = g67 + b.z.x * c.w.z;
    let g69: int = a.x.y * b.w.x * c.w.w + a.x.y * b.x.x * c.w.x;
    let g70: int = g69 + a.x.y * b.y.x * c.w.y;
    let g71: int = g70 + a.x.y * b.z.x * c.w.z;
    let g72: int = b.x.y * c.w.x + b.y.y * c.w.y;
    let g73: int = g72 + b.z.y * c.w.z;
    let g74: int = b.w.y * c.w.w + b.x.y * c.w.x;
    let g75: int = g74 + b.y.y * c.w.y;
    let g76: int = g75 + b.z.y * c.w.z;
    let g77: int = a.y.y * b.w.y * c.w.w + a.y.y * b.x.y * c.w.x;
    let g78: int = g77 + a.y.y * b.y.y * c.w.y;
    let g79: int = g78 + a.y.y * b.z.y * c.w.z;
    let g80: int = g71 + a.y.y * b.w.y * c.w.w;
    let g81: int = g80 + a.y.y * b.x.y * c.w.x;
    let g82: int = g81 + a.y.y * b.y.y * c.w.y;
    let g83: int = g82 + a.y.y * b.z.y * c.w.z;
    let g84: int = b.x.z * c.w.x + b.y.z * c.w.y;
    let g85: int = g84 + b.z.z * c.w.z;
    let g86: int = b.w.z * c.w.w + b.x.z * c.w.x;
    let g87: int = g86 + b.y.z * c.w.y;
    let g88: int = g87 + b.z.z * c.w.z;
    let g89: int = a.z.y * b.w.z * c.w.w + a.z.y * b.x.z * c.w.x;
    let g90: int = g89 + a.z.y * b.y.z * c.w.y;
    let g91: int = g90 + a.z.y * b.z.z * c.w.z;
    let g92: int = g83 + a.z.y * b.w.z * c.w.w;
    let g93: int = g92 + a.z.y * b.x.z * c.w.x;
    let g94: int = g93 + a.z.y * b.y.z * c.w.y;
    let g95: int = g94 + a.z.y * b.z.z * c.w.z;
    let g96: int = b.x.w * c.w.x + b.y.w * c.w.y;
    let g97: int = g96 + b.z.w * c.w.z;
    let g98: int = b.w.w * c.w.w + b.x.w * c.w.x;
    let g99: int = g98 + b.y.w * c.w.y;
    let g100: int = g99 + b.z.w * c.w.z;
    assert((g3 + a.z.y * b.x.z) * (c.w.x) == g3 * (c.w.x) + (a.z.y * b.x.z) * (c.w.x)
        && (g2 + a.y.y * b.x.y) * (c.w.x) == g2 * (c.w.x) + (a.y.y * b.x.y) * (c.w.x)
        && (a.w.y * b.x.w + a.x.y * b.x.x) * (c.w.x) == a.w.y * b.x.w * (c.w.x) + (a.x.y * b.x.x) * (c.w.x)
    ) by (nonlinear_arith);
    assert((g11 + a.z.y * b.y.z) * (c.w.y) == g11 * (c.w.y) + (a.z.y * b.y.z) * (c.w.y)
        && (g10 + a.y.y * b.y.y) * (c.w.y) == g10 * (c.w.y) + (a.y.y * b.y.y) * (c.w.y)
        && (a.w.y * b.y.w + a.x.y * b.y.x) * (c.w.y) == a.w.y * b.y.w * (c.w.y) + (a.x.y * b.y.x) * (c.w.y)
    ) by (nonlinear_arith);
    assert((g26 + a.z.y * b.z.z) * (c.w.z) == g26 * (c.w.z) + (a.z.y * b.z.z) * (c.w.z)
        && (g25 + a.y.y * b.z.y) * (c.w.z) == g25 * (c.w.z) + (a.y.y * b.z.y) * (c.w.z)
        && (a.w.y * b.z.w + a.x.y * b.z.x) * (c.w.z) == a.w.y * b.z.w * (c.w.z) + (a.x.y * b.z.x) * (c.w.z)
    ) by (nonlinear_arith);
    assert((g44 + a.z.y * b.w.z) * (c.w.w) == g44 * (c.w.w) + (a.z.y * b.w.z) * (c.w.w)
        && (g43 + a.y.y * b.w.y) * (c.w.w) == g43 * (c.w.w) + (a.y.y * b.w.y) * (c.w.w)
        && (a.w.y * b.w.w + a.x.y * b.w.x) * (c.w.w) == a.w.y * b.w.w * (c.w.w) + (a.x.y * b.w.x) * (c.w.w)
    ) by (nonlinear_arith);
    assert((a.x.y) * (g67 + b.z.x * c.w.z) == (a.x.y) * (g67) + (a.x.y) * (b.z.x * c.w.z)
        && (a.x.y) * (g66 + b.y.x * c.w.y) == (a.x.y) * (g66) + (a.x.y) * (b.y.x * c.w.y)
        && (a.x.y) * (b.w.x * c.w.w + b.x.x * c.w.x) == (a.x.y) * (b.w.x * c.w.w) + (a.x.y) * (b.x.x * c.w.x)
    ) by (nonlinear_arith);
    assert(a.x.y * (b.w.x * c.w.w) == a.x.y * b.w.x * c.w.w
        && a.x.y * (b.x.x * c.w.x) == a.x.y * b.x.x * c.w.x
        && a.x.y * (b.y.x * c.w.y) == a.x.y * b.y.x * c.w.y
        && a.x.y * (b.z.x * c.w.z) == a.x.y * b.z.x * c.w.z
    ) by (nonlinear_arith);
    assert((a.y.y) * (g75 + b.z.y * c.w.z) == (a.y.y) * (g75) + (a.y.y) * (b.z.y * c.w.z)
        && (a.y.y) * (g74 + b.y.y * c.w.y) == (a.y.y) * (g74) + (a.y.y) * (b.y.y * c.w.y)
        && (a.y.y) * (b.w.y * c.w.w + b.x.y * c.w.x) == (a.y.y) * (b.w.y * c.w.w) + (a.y.y) * (b.x.y * c.w.x)
    ) by (nonlinear_arith);
    assert(a.y.y * (b.w.y * c.w.w) == a.y.y * b.w.y * c.w.w
        && a.y.y * (b.x.y * c.w.x) == a.y.y * b.x.y * c.w.x
        && a.y.y * (b.y.y * c.w.y) == a.y.y * b.y.y * c.w.y
        && a.y.y * (b.z.y * c.w.z) == a.y.y * b.z.y * c.w.z
    ) by (nonlinear_arith);
    assert((a.z.y) * (g87 + b.z.z * c.w.z) == (a.z.y) * (g87) + (a.z.y) * (b.z.z * c.w.z)
        && (a.z.y) * (g86 + b.y.z * c.w.y) == (a.z.y) * (g86) + (a.z.y) * (b.y.z * c.w.y)
        && (a.z.y) * (b.w.z * c.w.w + b.x.z * c.w.x) == (a.z.y) * (b.w.z * c.w.w) + (a.z.y) * (b.x.z * c.w.x)
    ) by (nonlinear_arith);
    assert(a.z.y * (b.w.z * c.w.w) == a.z.y * b.w.z * c.w.w
        && a.z.y * (b.x.z * c.w.x) == a.z.y * b.x.z * c.w.x
        && a.z.y * (b.y.z * c.w.y) == a.z.y * b.y.z * c.w.y
        && a.z.y * (b.z.z * c.w.z) == a.z.y * b.z.z * c.w.z
    ) by (nonlinear_arith);
    assert((a.w.y) * (g99 + b.z.w * c.w.z) == (a.w.y) * (g99) + (a.w.y) * (b.z.w * c.w.z)
        && (a.w.y) * (g98 + b.y.w * c.w.y) == (a.w.y) * (g98) + (a.w.y) * (b.y.w * c.w.y)
        && (a.w.y) * (b.w.w * c.w.w + b.x.w * c.w.x) == (a.w.y) * (b.w.w * c.w.w) + (a.w.y) * (b.x.w * c.w.x)
    ) by (nonlinear_arith);
    assert(a.w.y * (b.w.w * c.w.w) == a.w.y * b.w.w * c.w.w
        && a.w.y * (b.x.w * c.w.x) == a.w.y * b.x.w * c.w.x
        && a.w.y * (b.y.w * c.w.y) == a.w.y * b.y.w * c.w.y
        && a.w.y * (b.z.w * c.w.z) == a.w.y * b.z.w * c.w.z
    ) by (nonlinear_arith);
    assert((a.x.y) * (b.x.x) == a.x.y * b.x.x);
    assert((a.y.y) * (b.x.y) == a.y.y * b.x.y);
    assert((a.x.y * b.x.x) + (a.y.y * b.x.y) == g0);
    assert((a.z.y) * (b.x.z) == a.z.y * b.x.z);
    assert((g0) + (a.z.y * b.x.z) == g1);
    assert((a.w.y) * (b.x.w) == a.w.y * b.x.w);
    assert((g1) + (a.w.y * b.x.w) == g4);
    assert((g2) * (c.w.x) == g5);
    assert((g3) * (c.w.x) == g6);
    assert((g4) * (c.w.x) == g7);
    assert((g4) * (c.w.x) == g7);
    assert((a.x.y) * (b.y.x) == a.x.y * b.y.x);
    assert((a.y.y) * (b.y.y) == a.y.y * b.y.y);
    assert((a.x.y * b.y.x) + (a.y.y * b.y.y) == g8);
    assert((a.z.y) * (b.y.z) == a.z.y * b.y.z);
    assert((g8) + (a.z.y * b.y.z) == g9);
    assert((a.w.y) * (b.y.w) == a.w.y * b.y.w);
    assert((g9) + (a.w.y * b.y.w) == g12);
    assert((g10) * (c.w.y) == g13);
    assert((g11) * (c.w.y) == g14);
    assert((g12) * (c.w.y) == g15);
    assert((g12) * (c.w.y) == g15);
    assert((g7) + (g15) == g22);
    assert((a.x.y) * (b.z.x) == a.x.y * b.z.x);
    assert((a.y.y) * (b.z.y) == a.y.y * b.z.y);
    assert((a.x.y * b.z.x) + (a.y.y * b.z.y) == g23);
    assert((a.z.y) * (b.z.z) == a.z.y * b.z.z);
    assert((g23) + (a.z.y * b.z.z) == g24);
    assert((a.w.y) * (b.z.w) == a.w.y * b.z.w);
    assert((g24) + (a.w.y * b.z.w) == g27);
    assert((g25) * (c.w.z) == g28);
    assert((g26) * (c.w.z) == g29);
    assert((g27) * (c.w.z) == g30);
    assert((g27) * (c.w.z) == g30);
    assert((g22) + (g30) == g40);
    assert((a.x.y) * (b.w.x) == a.x.y * b.w.x);
    assert((a.y.y) * (b.w.y) == a.y.y * b.w.y);
    assert((a.x.y * b.w.x) + (a.y.y * b.w.y) == g41);
    assert((a.z.y) * (b.w.z) == a.z.y * b.w.z);
    assert((g41) + (a.z.y * b.w.z) == g42);
    assert((a.w.y) * (b.w.w) == a.w.y * b.w.w);
    assert((g42) + (a.w.y * b.w.w) == g45);
    assert((g43) * (c.w.w) == g46);
    assert((g44) * (c.w.w) == g47);
    assert((g45) * (c.w.w) == g48);
    assert((g45) * (c.w.w) == g48);
    assert((g40) + (g48) == g63);
    assert((b.x.x) * (c.w.x) == b.x.x * c.w.x);
    assert((b.y.x) * (c.w.y) == b.y.x * c.w.y);
    assert((b.x.x * c.w.x) + (b.y.x * c.w.y) == g64);
    assert((b.z.x) * (c.w.z) == b.z.x * c.w.z);
    assert((g64) + (b.z.x * c.w.z) == g65);
    assert((b.w.x) * (c.w.w) == b.w.x * c.w.w);
    assert((g65) + (b.w.x * c.w.w) == g68);
    assert((a.x.y) * (g66) == g69);
    assert((a.x.y) * (g67) == g70);
    assert((a.x.y) * (g68) == g71);
    assert((a.x.y) * (g68) == g71);
    assert((b.x.y) * (c.w.x) == b.x.y * c.w.x);
    assert((b.y.y) * (c.w.y) == b.y.y * c.w.y);
    assert((b.x.y * c.w.x) + (b.y.y * c.w.y) == g72);
    assert((b.z.y) * (c.w.z) == b.z.y * c.w.z);
    assert((g72) + (b.z.y * c.w.z) == g73);
    assert((b.w.y) * (c.w.w) == b.w.y * c.w.w);
    assert((g73) + (b.w.y * c.w.w) == g76);
    assert((a.y.y) * (g74) == g77);
    assert((a.y.y) * (g75) == g78);
    assert((a.y.y) * (g76) == g79);
    assert((a.y.y) * (g76) == g79);
    assert((g71) + (g79) == g83);
    assert((b.x.z) * (c.w.x) == b.x.z * c.w.x);
    assert((b.y.z) * (c.w.y) == b.y.z * c.w.y);
    assert((b.x.z * c.w.x) + (b.y.z * c.w.y) == g84);
    assert((b.z.z) * (c.w.z) == b.z.z * c.w.z);
    assert((g84) + (b.z.z * c.w.z) == g85);
    assert((b.w.z) * (c.w.w) == b.w.z * c.w.w);
    assert((g85) + (b.w.z * c.w.w) == g88);
    assert((a.z.y) * (g86) == g89);
    assert((a.z.y) * (g87) == g90);
    assert((a.z.y) * (g88) == g91);
    assert((a.z.y) * (g88) == g91);
    assert((g83) + (g91) == g95);
    assert((b.x.w) * (c.w.x) == b.x.w * c.w.x);
    assert((b.y.w) * (c.w.y) == b.y.w * c.w.y);
    assert((b.x.w * c.w.x) + (b.y.w * c.w.y) == g96);
    assert((b.z.w) * (c.w.z) == b.z.w * c.w.z);
    assert((g96) + (b.z.w * c.w.z) == g97);
    assert((b.w.w) * (c.w.w) == b.w.w * c.w.w);
    assert((g97) + (b.w.w * c.w.w) == g100);
    assert((a.w.y) * (g98) == g49);
    assert((a.w.y) * (g99) == g50);
    assert((a.w.y) * (g100) == g51);
    assert((a.w.y) * (g100) == g51);
    assert((g95) + (g51) == g63);
}

proof fn assoc4_part_w_z(a: M4, b: M4, c: M4)
    ensures
        m4_mul(m4_mul(a, b), c).w.z == m4_mul(a, m4_mul(b, c)).w.z,
{
    let g0: int = a.x.z * b.x.x + a.y.z * b.x.y;
    let g1: int = g0 + a.z.z * b.x.z;
    let g2: int = a.w.z * b.x.w + a.x.z * b.x.x;
    let g3: int = g2 + a.y.z * b.x.y;
    let g4: int = g3 + a.z.z * b.x.z;
    let g5: int = a.w.z * b.x.w * c.w.x + a.x.z * b.x.x * c.w.x;
    let g6: int = g5 + a.y.z * b.x.y * c.w.x;
    let g7: int = g6 + a.z.z * b.x.z * c.w.x;
    let g8: int = a.x.z * b.y.x + a.y.z * b.y.y;
    let g9: int = g8 + a.z.z * b.y.z;
    let g10: int = a.w.z * b.y.w + a.x.z * b.y.x;
    let g11: int = g10 + a.y.z * b.y.y;
    let g12: int = g11 + a.z.z * b.y.z;
    let g13: int = a.w.z * b.y.w * c.w.y + a.x.z * b.y.x * c.w.y;
    let g14: int = g13 + a.y.z * b.y.y * c.w.y;
    let g15: int = g14 + a.z.z * b.y.z * c.w.y;
    let g16: int = a.w.z * b.x.w * c.w.x + a.w.z * b.y.w * c.w.y;
    let g17: int = g16 + a.x.z * b.x.x * c.w.x;
    let g18: int = g17 + a.x.z * b.y.x * c.w.y;
    let g19: int = g18 + a.y.z * b.x.y * c.w.x;
    let g20: int = g19 + a.y.z * b.y.y * c.w.y;
    let g21: int = g20 + a.z.z * b.x.z * c.w.x;
    let g22: int = g21 + a.z.z * b.y.z * c.w.y;
    let g23: int = a.x.z * b.z.x + a.y.z * b.z.y;
    let g24: int = g23 + a.z.z * b.z.z;
    let g25: int = a.w.z * b.z.w + a.x.z * b.z.x;
    let g26: int = g25 + a.y.z * b.z.y;
    let g27: int = g26 + a.z.z * b.z.z;
    let g28: int = a.w.z * b.z.w * c.w.z + a.x.z * b.z.x * c.w.z;
    let g29: int = g28 + a.y.z * b.z.y * c.w.z;
    let g30: int = g29 + a.z.z * b.z.z * c.w.z;
    let g31: int = g16 + a.w.z * b.z.w * c.w.z;
    let g32: int = g31 + a.x.z * b.x.x * c.w.x;
    let g33: int = g32 + a.x.z * b.y.x * c.w.y;
    let g34: int = g33 + a.x.z * b.z.x * c.w.z;
    let g35: int = g34 + a.y.z * b.x.y * c.w.x;
    let g36: int = g35 + a.y.z * b.y.y * c.w.y;
    let g37: int = g36 + a.y.z * b.z.y * c.w.z;
    let g38: int = g37 + a.z.z * b.x.z * c.w.x;
    let g39: int = g38 + a.z.z * b.y.z * c.w.y;
    let g40: int = g39 + a.z.z * b.z.z * c.w.z;
    let g41: int = a.x.z * b.w.x + a.y.z * b.w.y;
    let g42: int = g41 + a.z.z * b.w.z;
    let g43: int = a.w.z * b.w.w + a.x.z * b.w.x;
    let g44: int = g43 + a.y.z * b.w.y;
    let g45: int = g44 + a.z.z * b.w.z;
    let g46: int = a.w.z * b.w.w * c.w.w + a.x.z * b.w.x * c.w.w;
    let g47: int = g46 + a.y.z * b.w.y * c.w.w;
    let g48: int = g47 + a.z.z * b.w.z * c.w.w;
    let g49: int = a.w.z * b.w.w * c.w.w + a.w.z * b.x.w * c.w.x;
    let g50: int = g49 + a.w.z * b.y.w * c.w.y;
    let g51: int = g50 + a.w.z * b.z.w * c.w.z;
    let g52: int = g51 + a.x.z * b.w.x * c.w.w;
    let g53: int = g52 + a.x.z * b.x.x * c.w.x;
    let g54: int = g53 + a.x.z * b.y.x * c.w.y;
    let g55: int = g54 + a.x.z * b.z.x * c.w.z;
    let g56: int = g55 + a.y.z * b.w.y * c.w.w;
    let g57: int = g56 + a.y.z * b.x.y * c.w.x;
    let g58: int = g57 + a.y.z * b.y.y * c.w.y;
    let g59: int = g58 + a.y.z * b.z.y * c.w.z;
    let g60: int = g59 + a.z.z * b.w.z * c.w.w;
    let g61: int = g60 + a.z.z * b.x.z * c.w.x;
    let g62: int = g61 + a.z.z * b.y.z * c.w.y;
    let g63: int = g62 + a.z.z * b.z.z * c.w.z;
    let g64: int = b.x.x * c.w.x + b.y.x * c.w.y;
    let g65: int = g64 + b.z.x * c.w.z;
    let g66: int = b.w.x * c.w.w + b.x.x * c.w.x;
    let g67: int = g66 + b.y.x * c.w.y;
    let g68: int = g67 + b.z.x * c.w.z;
    let g69: int = a.x.z * b.w.x * c.w.w + a.x.z * b.x.x * c.w.x;
    let g70: int = g69 + a.x.z * b.y.x * c.w.y;
    let g71: int = g70 + a.x.z * b.z.x * c.w.z;
    let g72: int = b.x.y * c.w.x + b.y.y * c.w.y;
    let g73: int = g72 + b.z.y * c.w.z;
    let g74: int = b.w.y * c.w.w + b.x.y * c.w.x;
    let g75: int = g74 + b.y.y * c.w.y;
    let g76: int = g75 + b.z.y * c.w.z;
    let g77: int = a.y.z * b.w.y * c.w.w + a.y.z * b.x.y * c.w.x;
    let g78: int = g77 + a.y.z * b.y.y * c.w.y;
    let g79: int = g78 + a.y.z * b.z.y * c.w.z;
    let g80: int = g71 + a.y.z * b.w.y * c.w.w;
    let g81: int = g80 + a.y.z * b.x.y * c.w.x;
    let g82: int = g81 + a.y.z * b.y.y * c.w.y;
    let g83: int = g82 + a.y.z * b.z.y * c.w.z;
    let g84: int = b.x.z * c.w.x + b.y.z * c.w.y;
    let g85: int = g84 + b.z.z * c.w.z;
    let g86: int = b.w.z * c.w.w + b.x.z * c.w.x;
    let g87: int = g86 + b.y.z * c.w.y;
    let g88: int = g87 + b.z.z * c.w.z;
    let g89: int = a.z.z * b.w.z * c.w.w + a.z.z * b.x.z * c.w.x;
    let g90: int = g89 + a.z.z * b.y.z * c.w.y;
    let g91: int = g90 + a.z.z * b.z.z * c.w.z;
    let g92: int = g83 + a.z.z * b.w.z * c.w.w;
    let g93: int = g92 + a.z.z * b.x.z * c.w.x;
    let g94: int = g93 + a.z.z * b.y.z * c.w.y;
    let g95: int = g94 + a.z.z * b.z.z * c.w.z;
    let g96: int = b.x.w * c.w.x + b.y.w * c.w.y;
    let g97: int = g96 + b.z.w * c.w.z;
    let g98: int = b.w.w * c.w.w + b.x.w * c.w.x;
    let g99: int = g98 + b.y.w * c.w.y;
    let g100: int = g99 + b.z.w * c.w.z;
    assert((g3 + a.z.z * b.x.z) * (c.w.x) == g3 * (c.w.x) + (a.z.z * b.x.z) * (c.w.x)
        && (g2 + a.y.z * b.x.y) * (c.w.x) == g2 * (c.w.x) + (a.y.z * b.x.y) * (c.w.x)
        && (a.w.z * b.x.w + a.x.z * b.x.x) * (c.w.x) == a.w.z * b.x.w * (c.w.x) + (a.x.z * b.x.x) * (c.w.x)
    ) by (nonlinear_arith);
    assert((g11 + a.z.z * b.y.z) * (c.w.y) == g11 * (c.w.y) + (a.z.z * b.y.z) * (c.w.y)
        && (g10 + a.y.z * b.y.y) * (c.w.y) == g10 * (c.w.y) + (a.y.z * b.y.y) * (c.w.y)
        && (a.w.z * b.y.w + a.x.z * b.y.x) * (c.w.y) == a.w.z * b.y.w * (c.w.y) + (a.x.z * b.y.x) * (c.w.y)
    ) by (nonlinear_arith);
    assert((g26 + a.z.z * b.z.z) * (c.w.z) == g26 * (c.w.z) + (a.z.z * b.z.z) * (c.w.z)
        && (g25 + a.y.z * b.z.y) * (c.w.z) == g25 * (c.w.z) + (a.y.z * b.z.y) * (c.w.z)
        && (a.w.z * b.z.w + a.x.z * b.z.x) * (c.w.z) == a.w.z * b.z.w * (c.w.z) + (a.x.z * b.z.x) * (c.w.z)
    ) by (nonlinear_arith);
    assert((g44 + a.z.z * b.w.z) * (c.w.w) == g44 * (c.w.w) + (a.z.z * b.w.z) * (c.w.w)
        && (g43 + a.y.z * b.w.y) * (c.w.w) == g43 * (c.w.w) + (a.y.z * b.w.y) * (c.w.w)
        && (a.w.z * b.w.w + a.x.z * b.w.x) * (c.w.w) == a.w.z * b.w.w * (c.w.w) + (a.x.z * b.w.x) * (c.w.w)
    ) by (nonlinear_arith);
    assert((a.x.z) * (g67 + b.z.x * c.w.z) == (a.x.z) * (g67) + (a.x.z) * (b.z.x * c.w.z)
        && (a.x.z) * (g66 + b.y.x * c.w.y) == (a.x.z) * (g66) + (a.x.z) * (b.y.x * c.w.y)
        && (a.x.z) * (b.w.x * c.w.w + b.x.x * c.w.x) == (a.x.z) * (b.w.x * c.w.w) + (a.x.z) * (b.x.x * c.w.x)
    ) by (nonlinear_arith);
    assert(a.x.z * (b.w.x * c.w.w) == a.x.z * b.w.x * c.w.w
        && a.x.z * (b.x.x * c.w.x) == a.x.z * b.x.x * c.w.x
        && a.x.z * (b.y.x * c.w.y) == a.x.z * b.y.x * c.w.y
        && a.x.z * (b.z.x * c.w.z) == a.x.z * b.z.x * c.w.z
    ) by (nonlinear_arith);
    assert((a.y.z) * (g75 + b.z.y * c.w.z) == (a.y.z) * (g75) + (a.y.z) * (b.z.y * c.w.z)
        && (a.y.z) * (g74 + b.y.y * c.w.y) == (a.y.z) * (g74) + (a.y.z) * (b.y.y * c.w.y)
        && (a.y.z) * (b.w.y * c.w.w + b.x.y * c.w.x) == (a.y.z) * (b.w.y * c.w.w) + (a.y.z) * (b.x.y * c.w.x)
    ) by (nonlinear_arith);
    assert(a.y.z * (b.w.y * c.w.w) == a.y.z * b.w.y * c.w.w
        && a.y.z * (b.x.y * c.w.x) == a.y.z * b.x.y * c.w.x
        && a.y.z * (b.y.y * c.w.y) == a.y.z * b.y.y * c.w.y
        && a.y.z * (b.z.y * c.w.z) == a.y.z * b.z.y * c.w.z
    ) by (nonlinear_arith);
    assert((a.z.z) * (g87 + b.z.z * c.w.z) == (a.z.z) * (g87) + (a.z.z) * (b.z.z * c.w.z)
        && (a.z.z) * (g86 + b.y.z * c.w.y) == (a.z.z) * (g86) + (a.z.z) * (b.y.z * c.w.y)
        && (a.z.z) * (b.w.z * c.w.w + b.x.z * c.w.x) == (a.z.z) * (b.w.z * c.w.w) + (a.z.z) * (b.x.z * c.w.x)
    ) by (nonlinear_arith);
    assert(a.z.z * (b.w.z * c.w.w) == a.z.z * b.w.z * c.w.w
        && a.z.z * (b.x.z * c.w.x) == a.z.z * b.x.z * c.w.x
        && a.z.z * (b.y.z * c.w.y) == a.z.z * b.y.z * c.w.y
        && a.z.z * (b.z.z * c.w.z) == a.z.z * b.z.z * c.w.z
    ) by (nonlinear_arith);
    assert((a.w.z) * (g99 + b.z.w * c.w.z) == (a.w.z) * (g99) + (a.w.z) * (b.z.w * c.w.z)
        && (a.w.z) * (g98 + b.y.w * c.w.y) == (a.w.z) * (g98) + (a.w.z) * (b.y.w * c.w.y)
        && (a.w.z) * (b.w.w * c.w.w + b.x.w * c.w.x) == (a.w.z) * (b.w.w * c.w.w) + (a.w.z) * (b.x.w * c.w.x)
    ) by (nonlinear_arith);
    assert(a.w.z * (b.w.w * c.w.w) == a.w.z * b.w.w * c.w.w
        && a.w.z * (b.x.w * c.w.x) == a.w.z * b.x.w * c.w.x
        && a.w.z * (b.y.w * c.w.y) == a.w.z * b.y.w * c.w.y
        && a.w.z * (b.z.w * c.w.z) == a.w.z * b.z.w * c.w.z
    ) by (nonlinear_arith);
    assert((a.x.z) * (b.x.x) == a.x.z * b.x.x);
    assert((a.y.z) * (b.x.y) == a.y.z * b.x.y);
    assert((a.x.z * b.x.x) + (a.y.z * b.x.y) == g0);
    assert((a.z.z) * (b.x.z) == a.z.z * b.x.z);
    assert((g0) + (a.z.z * b.x.z) == g1);
    assert((a.w.z) * (b.x.w) == a.w.z * b.x.w);
    assert((g1) + (a.w.z * b.x.w) == g4);
    assert((g2) * (c.w.x) == g5);
    assert((g3) * (c.w.x) == g6);
    assert((g4) * (c.w.x) == g7);
    assert((g4) * (c.w.x) == g7);
    assert((a.x.z) * (b.y.x) == a.x.z * b.y.x);
    assert((a.y.z) * (b.y.y) == a.y.z * b.y.y);
    assert((a.x.z * b.y.x) + (a.y.z * b.y.y) == g8);
    assert((a.z.z) * (b.y.z) == a.z.z * b.y.z);
    assert((g8) + (a.z.z * b.y.z) == g9);
    assert((a.w.z) * (b.y.w) == a.w.z * b.y.w);
    assert((g9) + (a.w.z * b.y.w) == g12);
    assert((g10) * (c.w.y) == g13);
    assert((g11) * (c.w.y) == g14);
    assert((g12) * (c.w.y) == g15);
    assert((g12) * (c.w.y) == g15);
    assert((g7) + (g15) == g22);
    assert((a.x.z) * (b.z.x) == a.x.z * b.z.x);
    assert((a.y.z) * (b.z.y) == a.y.z * b.z.y);
    assert((a.x.z * b.z.x) + (a.y.z * b.z.y) == g23);
    assert((a.z.z) * (b.z.z) == a.z.z * b.z.z);
    assert((g23) + (a.z.z * b.z.z) == g24);
    assert((a.w.z) * (b.z.w) == a.w.z * b.z.w);
    assert((g24) + (a.w.z * b.z.w) == g27);
    assert((g25) * (c.w.z) == g28);
    assert((g26) * (c.w.z) == g29);
    assert((g27) * (c.w.z) == g30);
    assert((g27) * (c.w.z) == g30);
    assert((g22) + (g30) == g40);
    assert((a.x.z) * (b.w.x) == a.x.z * b.w.x);
    assert((a.y.z) * (b.w.y) == a.y.z * b.w.y);
    assert((a.x.z * b.w.x) + (a.y.z * b.w.y) == g41);
    assert((a.z.z) * (b.w.z) == a.z.z * b.w.z);
    assert((g41) + (a.z.z * b.w.z) == g42);
    assert((a.w.z) * (b.w.w) == a.w.z * b.w.w);
    assert((g42) + (a.w.z * b.w.w) == g45);
    assert((g43) * (c.w.w) == g46);
    assert((g44) * (c.w.w) == g47);
    assert((g45) * (c.w.w) == g48);
    assert((g45) * (c.w.w) == g48);
    assert((g40) + (g48) == g63);
    assert((b.x.x) * (c.w.x) == b.x.x * c.w.x);
    assert((b.y.x) * (c.w.y) == b.y.x * c.w.y);
    assert((b.x.x * c.w.x) + (b.y.x * c.w.y) == g64);
    assert((b.z.x) * (c.w.z) == b.z.x * c.w.z);
    assert((g64) + (b.z.x * c.w.z) == g65);
    assert((b.w.x) * (c.w.w) == b.w.x * c.w.w);
    assert((g65) + (b.w.x * c.w.w) == g68);
    assert((a.x.z) * (g66) == g69);
    assert((a.x.z) * (g67) == g70);
    assert((a.x.z) * (g68) == g71);
    assert((a.x.z) * (g68) == g71);
    assert((b.x.y) * (c.w.x) == b.x.y * c.w.x);
    assert((b.y.y) * (c.w.y) == b.y.y * c.w.y);
    assert((b.x.y * c.w.x) + (b.y.y * c.w.y) == g72);
    assert((b.z.y) * (c.w.z) == b.z.y * c.w.z);
    assert((g72) + (b.z.y * c.w.z) == g73);
    assert((b.w.y) * (c.w.w) == b.w.y * c.w.w);
    assert((g73) + (b.w.y * c.w.w) == g76);
    assert((a.y.z) * (g74) == g77);
    assert((a.y.z) * (g75) == g78);
    assert((a.y.z) * (g76) == g79);
    assert((a.y.z) * (g76) == g79);
    assert((g71) + (g79) == g83);
    assert((b.x.z) * (c.w.x) == b.x.z * c.w.x);
    assert((b.y.z) * (c.w.y) == b.y.z * c.w.y);
    assert((b.x.z * c.w.x) + (b.y.z * c.w.y) == g84);
    assert((b.z.z) * (c.w.z) == b.z.z * c.w.z);
    assert((g84) + (b.z.z * c.w.z) == g85);
    assert((b.w.z) * (c.w.w) == b.w.z * c.w.w);
    assert((g85) + (b.w.z * c.w.w) == g88);
    assert((a.z.z) * (g86) == g89);
    assert((a.z.z) * (g87) == g90);
    assert((a.z.z) * (g88) == g91);
    assert((a.z.z) * (g88) == g91);
    assert((g83) + (g91) == g95);
    assert((b.x.w) * (c.w.x) == b.x.w * c.w.x);
    assert((b.y.w) * (c.w.y) == b.y.w * c.w.y);
    assert((b.x.w * c.w.x) + (b.y.w * c.w.y) == g96);
    assert((b.z.w) * (c.w.z) == b.z.w * c.w.z);
    assert((g96) + (b.z.w * c.w.z) == g97);
    assert((b.w.w) * (c.w.w) == b.w.w * c.w.w);
    assert((g97) + (b.w.w * c.w.w) == g100);
    assert((a.w.z) * (g98) == g49);
    assert((a.w.z) * (g99) == g50);
    assert((a.w.z) * (g100) == g51);
    assert((a.w.z) * (g100) == g51);
    assert((g95) + (g51) == g63);
}

proof fn assoc4_part_w_w(a: M4, b: M4, c: M4)
    ensures
        m4_mul(m4_mul(a, b), c).w.w == m4_mul(a, m4_mul(b, c)).w.w,
{
    let g0: int = a.x.w * b.x.x + a.y.w * b.x.y;
    let g1: int = g0 + a.z.w * b.x.z;
    let g2: int = a.w.w * b.x.w + a.x.w * b.x.x;
    let g3: int = g2 + a.y.w * b.x.y;
    let g4: int = g3 + a.z.w * b.x.z;
    let g5: int = a.w.w * b.x.w * c.w.x + a.x.w * b.x.x * c.w.x;
    let g6: int = g5 + a.y.w * b.x.y * c.w.x;
    let g7: int = g6 + a.z.w * b.x.z * c.w.x;
    let g8: int = a.x.w * b.y.x + a.y.w * b.y.y;
    let g9: int = g8 + a.z.w * b.y.z;
    let g10: int = a.w.w * b.y.w + a.x.w * b.y.x;
    let g11: int = g10 + a.y.w * b.y.y;
    let g12: int = g11 + a.z.w * b.y.z;
    let g13: int = a.w.w * b.y.w * c.w.y + a.x.w * b.y.x * c.w.y;
    let g14: int = g13 + a.y.w * b.y.y * c.w.y;
    let g15: int = g14 + a.z.w * b.y.z * c.w.y;
    let g16: int = a.w.w * b.x.w * c.w.x + a.w.w * b.y.w * c.w.y;
    let g17: int = g16 + a.x.w * b.x.x * c.w.x;
    let g18: int = g17 + a.x.w * b.y.x * c.w.y;
    let g19: int = g18 + a.y.w * b.x.y * c.w.x;
    let g20: int = g19 + a.y.w * b.y.y * c.w.y;
    let g21: int = g20 + a.z.w * b.x.z * c.w.x;
    let g22: int = g21 + a.z.w * b.y.z * c.w.y;
    let g23: int = a.x.w * b.z.x + a.y.w * b.z.y;
    let g24: int = g23 + a.z.w * b.z.z;
    let g25: int = a.w.w * b.z.w + a.x.w * b.z.x;
    let g26: int = g25 + a.y.w * b.z.y;
    let g27: int = g26 + a.z.w * b.z.z;
    let g28: int = a.w.w * b.z.w * c.w.z + a.x.w * b.z.x * c.w.z;
    let g29: int = g28 + a.y.w * b.z.y * c.w.z;
    let g30: int = g29 + a.z.w * b.z.z * c.w.z;
    let g31: int = g16 + a.w.w * b.z.w * c.w.z;
    let g32: int = g31 + a.x.w * b.x.x * c.w.x;
    let g33: int = g32 + a.x.w * b.y.x * c.w.y;
    let g34: int = g33 + a.x.w * b.z.x * c.w.z;
    let g35: int = g34 + a.y.w * b.x.y * c.w.x;
    let g36: int = g35 + a.y.w * b.y.y * c.w.y;
    let g37: int = g36 + a.y.w * b.z.y * c.w.z;
    let g38: int = g37 + a.z.w * b.x.z * c.w.x;
    let g39: int = g38 + a.z.w * b.y.z * c.w.y;
    let g40: int = g39 + a.z.w * b.z.z * c.w.z;
    let g41: int = a.x.w * b.w.x + a.y.w * b.w.y;
    let g42: int = g41 + a.z.w * b.w.z;
    let g43: int = a.w.w * b.w.w + a.x.w * b.w.x;
    let g44: int = g43 + a.y.w * b.w.y;
    let g45: int = g44 + a.z.w * b.w.z;
    let g46: int = a.w.w * b.w.w * c.w.w + a.x.w * b.w.x * c.w.w;
    let g47: int = g46 + a.y.w * b.w.y * c.w.w;
    let g48: int = g47 + a.z.w * b.w.z * c.w.w;
    let g49: int = a.w.w * b.w.w * c.w.w + a.w.w * b.x.w * c.w.x;
    let g50: int = g49 + a.w.w * b.y.w * c.w.y;
    let g51: int = g50 + a.w.w * b.z.w * c.w.z;
    let g52: int = g51 + a.x.w * b.w.x * c.w.w;
    let g53: int = g52 + a.x.w * b.x.x * c.w.x;
    let g54: int = g53 + a.x.w * b.y.x * c.w.y;
    let g55: int = g54 + a.x.w * b.z.x * c.w.z;
    let g56: int = g55 + a.y.w * b.w.y * c.w.w;
    let g57: int = g56 + a.y.w * b.x.y * c.w.x;
    let g58: int = g57 + a.y.w * b.y.y * c.w.y;
    let g59: int = g58 + a.y.w * b.z.y * c.w.z;
    let g60: int = g59 + a.z.w * b.w.z * c.w.w;
    let g61: int = g60 + a.z.w * b.x.z * c.w.x;
    let g62: int = g61 + a.z.w * b.y.z * c.w.y;
    let g63: int = g62 + a.z.w * b.z.z * c.w.z;
    let g64: int = b.x.x * c.w.x + b.y.x * c.w.y;
    let g65: int = g64 + b.z.x * c.w.z;
    let g66: int = b.w.x * c.w.w + b.x.x * c.w.x;
    let g67: int = g66 + b.y.x * c.w.y;
    let g68: int = g67 + b.z.x * c.w.z;
    let g69: int = a.x.w * b.w.x * c.w.w + a.x.w * b.x.x * c.w.x;
    let g70: int = g69 + a.x.w * b.y.x * c.w.y;
    let g71: int = g70 + a.x.w * b.z.x * c.w.z;
    let g72: int = b.x.y * c.w.x + b.y.y * c.w.y;
    let g73: int = g72 + b.z.y * c.w.z;
    let g74: int = b.w.y * c.w.w + b.x.y * c.w.x;
    let g75: int = g74 + b.y.y * c.w.y;
    let g76: int = g75 + b.z.y * c.w.z;
    let g77: int = a.y.w * b.w.y * c.w.w + a.y.w * b.x.y * c.w.x;
    let g78: int = g77 + a.y.w * b.y.y * c.w.y;
    let g79: int = g78 + a.y.w * b.z.y * c.w.z;
    let g80: int = g71 + a.y.w * b.w.y * c.w.w;
    let g81: int = g80 + a.y.w * b.x.y * c.w.x;
    let g82: int = g81 + a.y.w * b.y.y * c.w.y;
    let g83: int = g82 + a.y.w * b.z.y * c.w.z;
    let g84: int = b.x.z * c.w.x + b.y.z * c.w.y;
    let g85: int = g84 + b.z.z * c.w.z;
    let g86: int = b.w.z * c.w.w + b.x.z * c.w.x;
    let g87: int = g86 + b.y.z * c.w.y;
    let g88: int = g87 + b.z.z * c.w.z;
    let g89: int = a.z.w * b.w.z * c.w.w + a.z.w * b.x.z * c.w.x;
    let g90: int = g89 + a.z.w * b.y.z * c.w.y;
    let g91: int = g90 + a.z.w * b.z.z * c.w.z;
    let g92: int = g83 + a.z.w * b.w.z * c.w.w;
    let g93: int = g92 + a.z.w * b.x.z * c.w.x;
    let g94: int = g93 + a.z.w * b.y.z * c.w.y;
    let g95: int = g94 + a.z.w * b.z.z * c.w.z;
    let g96: int = b.x.w * c.w.x + b.y.w * c.w.y;
    let g97: int = g96 + b.z.w * c.w.z;
    let g98: int = b.w.w * c.w.w + b.x.w * c.w.x;
    let g99: int = g98 + b.y.w * c.w.y;
    let g100: int = g99 + b.z.w * c.w.z;
    assert((g3 + a.z.w * b.x.z) * (c.w.x) == g3 * (c.w.x) + (a.z.w * b.x.z) * (c.w.x)
        && (g2 + a.y.w * b.x.y) * (c.w.x) == g2 * (c.w.x) + (a.y.w * b.x.y) * (c.w.x)
        && (a.w.w * b.x.w + a.x.w * b.x.x) * (c.w.x) == a.w.w * b.x.w * (c.w.x) + (a.x.w * b.x.x) * (c.w.x)
    ) by (nonlinear_arith);
    assert((g11 + a.z.w * b.y.z) * (c.w.y) == g11 * (c.w.y) + (a.z.w * b.y.z) * (c.w.y)
        && (g10 + a.y.w * b.y.y) * (c.w.y) == g10 * (c.w.y) + (a.y.w * b.y.y) * (c.w.y)
        && (a.w.w * b.y.w + a.x.w * b.y.x) * (c.w.y) == a.w.w * b.y.w * (c.w.y) + (a.x.w * b.y.x) * (c.w.y)
    ) by (nonlinear_arith);
    assert((g26 + a.z.w * b.z.z) * (c.w.z) == g26 * (c.w.z) + (a.z.w * b.z.z) * (c.w.z)
        && (g25 + a.y.w * b.z.y) * (c.w.z) == g25 * (c.w.z) + (a.y.w * b.z.y) * (c.w.z)
        && (a.w.w * b.z.w + a.x.w * b.z.x) * (c.w.z) == a.w.w * b.z.w * (c.w.z) + (a.x.w * b.z.x) * (c.w.z)
    ) by (nonlinear_arith);
    assert((g44 + a.z.w * b.w.z) * (c.w.w) == g44 * (c.w.w) + (a.z.w * b.w.z) * (c.w.w)
        && (g43 + a.y.w * b.w.y) * (c.w.w) == g43 * (c.w.w) + (a.y.w * b.w.y) * (c.w.w)
        && (a.w.w * b.w.w + a.x.w * b.w.x) * (c.w.w) == a.w.w * b.w.w * (c.w.w) + (a.x.w * b.w.x) * (c.w.w)
    ) by (nonlinear_arith);
    assert((a.x.w) * (g67 + b.z.x * c.w.z) == (a.x.w) * (g67) + (a.x.w) * (b.z.x * c.w.z)
        && (a.x.w) * (g66 + b.y.x * c.w.y) == (a.x.w) * (g66) + (a.x.w) * (b.y.x * c.w.y)
        && (a.x.w) * (b.w.x * c.w.w + b.x.x * c.w.x) == (a.x.w) * (b.w.x * c.w.w) + (a.x.w) * (b.x.x * c.w.x)
    ) by (nonlinear_arith);
    assert(a.x.w * (b.w.x * c.w.w) == a.x.w * b.w.x * c.w.w
        && a.x.w * (b.x.x * c.w.x) == a.x.w * b.x.x * c.w.x
        && a.x.w * (b.y.x * c.w.y) == a.x.w * b.y.x * c.w.y
        && a.x.w * (b.z.x * c.w.z) == a.x.w * b.z.x * c.w.z
    ) by (nonlinear_arith);
    assert((a.y.w) * (g75 + b.z.y * c.w.z) == (a.y.w) * (g75) + (a.y.w) * (b.z.y * c.w.z)
        && (a.y.w) * (g74 + b.y.y * c.w.y) == (a.y.w) * (g74) + (a.y.w) * (b.y.y * c.w.y)
        && (a.y.w) * (b.w.y * c.w.w + b.x.y * c.w.x) == (a.y.w) * (b.w.y * c.w.w) + (a.y.w) * (b.x.y * c.w.x)
    ) by (nonlinear_arith);
    assert(a.y.w * (b.w.y * c.w.w) == a.y.w * b.w.y * c.w.w
        && a.y.w * (b.x.y * c.w.x) == a.y.w * b.x.y * c.w.x
        && a.y.w * (b.y.y * c.w.y) == a.y.w * b.y.y * c.w.y
        && a.y.w * (b.z.y * c.w.z) == a.y.w * b.z.y * c.w.z
    ) by (nonlinear_arith);
    assert((a.z.w) * (g87 + b.z.z * c.w.z) == (a.z.w) * (g87) + (a.z.w) * (b.z.z * c.w.z)
        && (a.z.w) * (g86 + b.y.z * c.w.y) == (a.z.w) * (g86) + (a.z.w) * (b.y.z * c.w.y)
        && (a.z.w) * (b.w.z * c.w.w + b.x.z * c.w.x) == (a.z.w) * (b.w.z * c.w.w) + (a.z.w) * (b.x.z * c.w.x)
    ) by (nonlinear_arith);
    assert(a.z.w * (b.w.z * c.w.w) == a.z.w * b.w.z * c.w.w
        && a.z.w * (b.x.z * c.w.x) == a.z.w * b.x.z * c.w.x
        && a.z.w * (b.y.z * c.w.y) == a.z.w * b.y.z * c.w.y
        && a.z.w * (b.z.z * c.w.z) == a.z.w * b.z.z * c.w.z
    ) by (nonlinear_arith);
    assert((a.w.w) * (g99 + b.z.w * c.w.z) == (a.w.w) * (g99) + (a.w.w) * (b.z.w * c.w.z)
        && (a.w.w) * (g98 + b.y.w * c.w.y) == (a.w.w) * (g98) + (a.w.w) * (b.y.w * c.w.y)
        && (a.w.w) * (b.w.w * c.w.w + b.x.w * c.w.x) == (a.w.w) * (b.w.w * c.w.w) + (a.w.w) * (b.x.w * c.w.x)
    ) by (nonlinear_arith);
    assert(a.w.w * (b.w.w * c.w.w) == a.w.w * b.w.w * c.w.w
        && a.w.w * (b.x.w * c.w.x) == a.w.w * b.x.w * c.w.x
        && a.w.w * (b.y.w * c.w.y) == a.w.w * b.y.w * c.w.y
        && a.w.w * (b.z.w * c.w.z) == a.w.w * b.z.w * c.w.z
    ) by (nonlinear_arith);
    assert((a.x.w) * (b.x.x) == a.x.w * b.x.x);
    assert((a.y.w) * (b.x.y) == a.y.w * b.x.y);
    assert((a.x.w * b.x.x) + (a.y.w * b.x.y) == g0);
    assert((a.z.w) * (b.x.z) == a.z.w * b.x.z);
    assert((g0) + (a.z.w * b.x.z) == g1);
    assert((a.w.w) * (b.x.w) == a.w.w * b.x.w);
    assert((g1) + (a.w.w * b.x.w) == g4);
    assert((g2) * (c.w.x) == g5);
    assert((g3) * (c.w.x) == g6);
    assert((g4) * (c.w.x) == g7);
    assert((g4) * (c.w.x) == g7);
    assert((a.x.w) * (b.y.x) == a.x.w * b.y.x);
    assert((a.y.w) * (b.y.y) == a.y.w * b.y.y);
    assert((a.x.w * b.y.x) + (a.y.w * b.y.y) == g8);
    assert((a.z.w) * (b.y.z) == a.z.w * b.y.z);
    assert((g8) + (a.z.w * b.y.z) == g9);
    assert((a.w.w) * (b.y.w) == a.w.w * b.y.w);
    assert((g9) + (a.w.w * b.y.w) == g12);
    assert((g10) * (c.w.y) == g13);
    assert((g11) * (c.w.y) == g14);
    assert((g12) * (c.w.y) == g15);
    assert((g12) * (c.w.y) == g15);
    assert((g7) + (g15) == g22);
    assert((a.x.w) * (b.z.x) == a.x.w * b.z.x);
    assert((a.y.w) * (b.z.y) == a.y.w * b.z.y);
    assert((a.x.w * b.z.x) + (a.y.w * b.z.y) == g23);
    assert((a.z.w) * (b.z.z) == a.z.w * b.z.z);
    assert((g23) + (a.z.w * b.z.z) == g24);
    assert((a.w.w) * (b.z.w) == a.w.w * b.z.w);
    assert((g24) + (a.w.w * b.z.w) == g27);
    assert((g25) * (c.w.z) == g28);
    assert((g26) * (c.w.z) == g29);
    assert((g27) * (c.w.z) == g30);
    assert((g27) * (c.w.z) == g30);
    assert((g22) + (g30) == g40);
    assert((a.x.w) * (b.w.x) == a.x.w * b.w.x);
    assert((a.y.w) * (b.w.y) == a.y.w * b.w.y);
    assert((a.x.w * b.w.x) + (a.y.w * b.w.y) == g41);
    assert((a.z.w) * (b.w.z) == a.z.w * b.w.z);
    assert((g41) + (a.z.w * b.w.z) == g42);
    assert((a.w.w) * (b.w.w) == a.w.w * b.w.w);
    assert((g42) + (a.w.w * b.w.w) == g45);
    assert((g43) * (c.w.w) == g46);
    assert((g44) * (c.w.w) == g47);
    assert((g45) * (c.w.w) == g48);
    assert((g45) * (c.w.w) == g48);
    assert((g40) + (g48) == g63);
    assert((b.x.x) * (c.w.x) == b.x.x * c.w.x);
    assert((b.y.x) * (c.w.y) == b.y.x * c.w.y);
    assert((b.x.x * c.w.x) + (b.y.x * c.w.y) == g64);
    assert((b.z.x) * (c.w.z) == b.z.x * c.w.z);
    assert((g64) + (b.z.x * c.w.z) == g65);
    assert((b.w.x) * (c.w.w) == b.w.x * c.w.w);
    assert((g65) + (b.w.x * c.w.w) == g68);
    assert((a.x.w) * (g66) == g69);
    assert((a.x.w) * (g67) == g70);
    assert((a.x.w) * (g68) == g71);
    assert((a.x.w) * (g68) == g71);
    assert((b.x.y) * (c.w.x) == b.x.y * c.w.x);
    assert((b.y.y) * (c.w.y) == b.y.y * c.w.y);
    assert((b.x.y * c.w.x) + (b.y.y * c.w.y) == g72);
    assert((b.z.y) * (c.w.z) == b.z.y * c.w.z);
    assert((g72) + (b.z.y * c.w.z) == g73);
    assert((b.w.y) * (c.w.w) == b.w.y * c.w.w);
    assert((g73) + (b.w.y * c.w.w) == g76);
    assert((a.y.w) * (g74) == g77);
    assert((a.y.w) * (g75) == g78);
    assert((a.y.w) * (g76) == g79);
    assert((a.y.w) * (g76) == g79);
    assert((g71) + (g79) == g83);
    assert((b.x.z) * (c.w.x) == b.x.z * c.w.x);
    assert((b.y.z) * (c.w.y) == b.y.z * c.w.y);
    assert((b.x.z * c.w.x) + (b.y.z * c.w.y) == g84);
    assert((b.z.z) * (c.w.z) == b.z.z * c.w.z);
    assert((g84) + (b.z.z * c.w.z) == g85);
    assert((b.w.z) * (c.w.w) == b.w.z * c.w.w);
    assert((g85) + (b.w.z * c.w.w) == g88);
    assert((a.z.w) * (g86) == g89);
    assert((a.z.w) * (g87) == g90);
    assert((a.z.w) * (g88) == g91);
    assert((a.z.w) * (g88) == g91);
    assert((g83) + (g91) == g95);
    assert((b.x.w) * (c.w.x) == b.x.w * c.w.x);
    assert((b.y.w) * (c.w.y) == b.y.w * c.w.y);
    assert((b.x.w * c.w.x) + (b.y.w * c.w.y) == g96);
    assert((b.z.w) * (c.w.z) == b.z.w * c.w.z);
    assert((g96) + (b.z.w * c.w.z) == g97);
    assert((b.w.w) * (c.w.w) == b.w.w * c.w.w);
    assert((g97) + (b.w.w * c.w.w) == g100);
    assert((a.w.w) * (g98) == g49);
    assert((a.w.w) * (g99) == g50);
    assert((a.w.w) * (g100) == g51);
    assert((a.w.w) * (g100) == g51);
    assert((g95) + (g51) == g63);
}

proof fn assoc4_part_w_d(a: M4, b: M4, c: M4)
    ensures
        m4_mul(m4_mul(a, b), c).w.d == m4_mul(a, m4_mul(b, c)).w.d,
{
    assert(a.x.d * (b.x.d * c.w.d) == a.x.d * b.x.d * c.w.d) by (nonlinear_arith);
    assert((a.x.d) * (b.x.d) == a.x.d * b.x.d);
    assert((a.x.d * b.x.d) * (c.w.d) == a.x.d * b.x.d * c.w.d);
    assert((b.x.d) * (c.w.d) == b.x.d * c.w.d);
    assert((a.x.d) * (b.x.d * c.w.d) == a.x.d * b.x.d * c.w.d);
}

/// The matrix product is associative, entry for entry.
pub proof fn lemma_mul_associative_4(a: M4, b: M4, c: M4)
    ensures
        m4_mul(m4_mul(a, b), c) == m4_mul(a, m4_mul(b, c)),
{
    assoc4_part_x_x(a, b, c);
    assoc4_part_x_y(a, b, c);
    assoc4_part_x_z(a, b, c);
    assoc4_part_x_w(a, b, c);
    assoc4_part_x_d(a, b, c);
    assoc4_part_y_x(a, b, c);
    assoc4_part_y_y(a, b, c);
    assoc4_part_y_z(a, b, c);
    assoc4_part_y_w(a, b, c);
    assoc4_part_y_d(a, b, c);
    assoc4_part_z_x(a, b, c);
    assoc4_part_z_y(a, b, c);
    assoc4_part_z_z(a, b, c);
    assoc4_part_z_w(a, b, c);
    assoc4_part_z_d(a, b, c);
    assoc4_part_w_x(a, b, c);
    assoc4_part_w_y(a, b, c);
    assoc4_part_w_z(a, b, c);
    assoc4_part_w_w(a, b, c);
    assoc4_part_w_d(a, b, c);
}

} // verus!
